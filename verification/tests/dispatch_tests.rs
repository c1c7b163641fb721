use botcore::dispatch::{
    DispatchAction, InboundEvent, TRUSTED_SENDER, dispatch_batch, dispatch_event, reply_text,
};

#[test]
fn group_message_is_observed() {
    let e = InboundEvent::GroupMessage { group_id: 42, content: String::from("hi all") };
    assert_eq!(dispatch_event(&e), DispatchAction::ObserveGroup { group_id: 42 });
}

#[test]
fn friend_message_is_observed() {
    let e = InboundEvent::FriendMessage { from_uin: 1000, content: String::from("hey") };
    assert_eq!(dispatch_event(&e), DispatchAction::ObserveFriend { from_uin: 1000 });
}

#[test]
fn trusted_sender_gets_reply() {
    let e = InboundEvent::FriendMessage { from_uin: TRUSTED_SENDER, content: String::from("ping") };
    assert_eq!(dispatch_event(&e), DispatchAction::ReplyFriend { to_uin: TRUSTED_SENDER });
    assert_eq!(reply_text(), "Hello");
}

#[test]
fn other_event_is_observed() {
    assert_eq!(dispatch_event(&InboundEvent::Other), DispatchAction::ObserveOther);
}

#[test]
fn batch_keeps_production_order() {
    let events = vec![
        InboundEvent::GroupMessage { group_id: 7, content: String::from("a") },
        InboundEvent::Other,
        InboundEvent::FriendMessage { from_uin: TRUSTED_SENDER, content: String::from("b") },
        InboundEvent::FriendMessage { from_uin: 5, content: String::from("c") },
        InboundEvent::GroupMessage { group_id: 9, content: String::from("d") },
    ];
    let acts = dispatch_batch(&events);
    assert_eq!(
        acts,
        vec![
            DispatchAction::ObserveGroup { group_id: 7 },
            DispatchAction::ObserveOther,
            DispatchAction::ReplyFriend { to_uin: TRUSTED_SENDER },
            DispatchAction::ObserveFriend { from_uin: 5 },
            DispatchAction::ObserveGroup { group_id: 9 },
        ]
    );
}
