use vstd::prelude::*;

verus! {

/// The one sender whose friend messages get the canned reply.
pub const TRUSTED_SENDER: i64 = 1573856599;

/// One inbound event from a session's transport, reduced to the data the
/// dispatcher reads.
pub enum InboundEvent {
    GroupMessage { group_id: i64, content: String },
    FriendMessage { from_uin: i64, content: String },
    Other,
}

/// What the dispatcher decides to do with one event. Observations are
/// recorded by the caller; a reply is sent back through the same session.
#[derive(Clone, Copy, Debug, PartialEq, Eq, Structural)]
pub enum DispatchAction {
    ObserveGroup { group_id: i64 },
    ObserveFriend { from_uin: i64 },
    ReplyFriend { to_uin: i64 },
    ObserveOther,
}

/// The action owed to one event: group and unknown events are observed only;
/// a friend message is observed, except that the trusted sender is answered
/// with the canned reply.
pub open spec fn action_for(e: InboundEvent) -> DispatchAction {
    match e {
        InboundEvent::GroupMessage { group_id, .. } => (DispatchAction::ObserveGroup { group_id }),
        InboundEvent::FriendMessage { from_uin, .. } => if from_uin == TRUSTED_SENDER {
            (DispatchAction::ReplyFriend { to_uin: from_uin })
        } else {
            (DispatchAction::ObserveFriend { from_uin })
        },
        InboundEvent::Other => DispatchAction::ObserveOther,
    }
}

/// The actions owed to a whole inbound sequence, in the order it was produced.
pub open spec fn actions_for(s: Seq<InboundEvent>) -> Seq<DispatchAction> {
    s.map(|i: int, e: InboundEvent| action_for(e))
}

/// Decide the action for one inbound event.
pub fn dispatch_event(e: &InboundEvent) -> (a: DispatchAction)
    ensures
        a == action_for(*e),
{
    match e {
        InboundEvent::GroupMessage { group_id, .. } => DispatchAction::ObserveGroup {
            group_id: *group_id,
        },
        InboundEvent::FriendMessage { from_uin, .. } => {
            if *from_uin == TRUSTED_SENDER {
                DispatchAction::ReplyFriend { to_uin: *from_uin }
            } else {
                DispatchAction::ObserveFriend { from_uin: *from_uin }
            }
        },
        InboundEvent::Other => DispatchAction::ObserveOther,
    }
}

/// The text of the canned reply to the trusted sender.
pub fn reply_text() -> (r: String)
    ensures
        r@ == "Hello"@,
{
    String::from_str("Hello")
}

/// Process a drained batch of inbound events. The result holds one action per
/// event, in the order the events were produced: the dispatcher observes and
/// processes a session's events strictly first-in, first-out.
pub fn dispatch_batch(events: &Vec<InboundEvent>) -> (acts: Vec<DispatchAction>)
    ensures
        acts@ == actions_for(events@),
{
    let mut acts: Vec<DispatchAction> = Vec::new();
    let mut i: usize = 0;
    while i < events.len()
        invariant
            i <= events@.len(),
            acts@.len() == i,
            forall|j: int| 0 <= j < i ==> acts@[j] == action_for(events@[j]),
        decreases events@.len() - i,
    {
        let a = dispatch_event(&events[i]);
        acts.push(a);
        i = i + 1;
    }
    proof {
        assert(acts@ =~= actions_for(events@));
    }
    acts
}

/// Law: dispatch preserves the production order. For every inbound sequence,
/// the processed actions are exactly the per-event actions, at the same
/// positions: the event produced at position `i` is processed at position `i`,
/// before every event produced after it.
pub proof fn lemma_dispatch_order(s: Seq<InboundEvent>)
    ensures
        actions_for(s).len() == s.len(),
        forall|i: int| 0 <= i < s.len() ==> actions_for(s)[i] == action_for(s[i]),
{
}

} // verus!
