use botcore::reconnect::{
    RECONNECT_DELAY_SECS, RECONNECT_MAX_ATTEMPTS, RetryPolicy, SupervisorAction, SupervisorEvent,
    SupervisorState, step,
};

#[test]
fn network_loss_starts_first_attempt() {
    let p = RetryPolicy::standard();
    let (st, act) = step(&p, SupervisorState::Active, SupervisorEvent::NetworkEnded);
    assert_eq!(st, SupervisorState::Reconnecting { attempt: 1 });
    assert_eq!(act, SupervisorAction::StartAttempt { delay_secs: RECONNECT_DELAY_SECS });
}

#[test]
fn success_restores_the_session() {
    let p = RetryPolicy::standard();
    let (st, act) = step(
        &p,
        SupervisorState::Reconnecting { attempt: 3 },
        SupervisorEvent::AttemptSucceeded,
    );
    assert_eq!(st, SupervisorState::Active);
    assert_eq!(act, SupervisorAction::NoAction);
}

#[test]
fn attempts_are_bounded_and_exhaustion_is_terminal() {
    let p = RetryPolicy::standard();
    let mut st = SupervisorState::Active;
    let mut started: u32 = 0;

    let (next, act) = step(&p, st, SupervisorEvent::NetworkEnded);
    st = next;
    if let SupervisorAction::StartAttempt { delay_secs } = act {
        assert_eq!(delay_secs, RECONNECT_DELAY_SECS);
        started += 1;
    }
    for _ in 0..100 {
        let (next, act) = step(&p, st, SupervisorEvent::AttemptFailed);
        st = next;
        if let SupervisorAction::StartAttempt { delay_secs } = act {
            assert_eq!(delay_secs, RECONNECT_DELAY_SECS);
            started += 1;
        }
    }
    assert_eq!(started, RECONNECT_MAX_ATTEMPTS);
    assert_eq!(st, SupervisorState::PermanentlyFailed);

    let (next, act) = step(&p, st, SupervisorEvent::NetworkEnded);
    assert_eq!(next, SupervisorState::PermanentlyFailed);
    assert_eq!(act, SupervisorAction::NoAction);
}

#[test]
fn spurious_events_leave_an_active_session_alone() {
    let p = RetryPolicy::standard();
    let (st, act) = step(&p, SupervisorState::Active, SupervisorEvent::AttemptFailed);
    assert_eq!(st, SupervisorState::Active);
    assert_eq!(act, SupervisorAction::NoAction);
}
