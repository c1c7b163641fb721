use vstd::prelude::*;

verus! {

/// Fixed delay between reconnection attempts, in seconds.
pub const RECONNECT_DELAY_SECS: u64 = 10;

/// Bound on the number of reconnection attempts after one network loss.
pub const RECONNECT_MAX_ATTEMPTS: u32 = 10;

/// Retry policy of the supervisor: a fixed inter-attempt delay and a bounded
/// attempt count.
#[derive(Clone, Copy, Debug, PartialEq, Eq, Structural)]
pub struct RetryPolicy {
    pub max_attempts: u32,
    pub delay_secs: u64,
}

impl RetryPolicy {
    /// The policy the bot runs with.
    pub fn standard() -> (r: RetryPolicy)
        ensures
            r == (RetryPolicy { max_attempts: RECONNECT_MAX_ATTEMPTS, delay_secs: RECONNECT_DELAY_SECS }),
    {
        RetryPolicy { max_attempts: RECONNECT_MAX_ATTEMPTS, delay_secs: RECONNECT_DELAY_SECS }
    }
}

/// Lifecycle of one session's transport as the supervisor tracks it.
/// `Reconnecting { attempt }` means attempt number `attempt` is in flight.
#[derive(Clone, Copy, Debug, PartialEq, Eq, Structural)]
pub enum SupervisorState {
    Active,
    Reconnecting { attempt: u32 },
    PermanentlyFailed,
}

/// What the supervisor hears: the network task ended, or one reconnection
/// attempt resolved.
#[derive(Clone, Copy, Debug, PartialEq, Eq, Structural)]
pub enum SupervisorEvent {
    NetworkEnded,
    AttemptFailed,
    AttemptSucceeded,
}

/// What the caller must do next: start one reconnection attempt after the
/// given delay, or nothing.
#[derive(Clone, Copy, Debug, PartialEq, Eq, Structural)]
pub enum SupervisorAction {
    StartAttempt { delay_secs: u64 },
    NoAction,
}

/// One transition of the supervisor. A network loss (clean or not) starts
/// attempt 1; a failed attempt below the bound starts the next one; a failed
/// attempt at the bound is terminal; success restores the session; a
/// permanently failed session absorbs every further event.
pub open spec fn supervisor_step(p: RetryPolicy, st: SupervisorState, ev: SupervisorEvent) -> (
    SupervisorState,
    SupervisorAction,
) {
    match st {
        SupervisorState::Active => match ev {
            SupervisorEvent::NetworkEnded => if p.max_attempts == 0 {
                (SupervisorState::PermanentlyFailed, SupervisorAction::NoAction)
            } else {
                (
                    SupervisorState::Reconnecting { attempt: 1 },
                    (SupervisorAction::StartAttempt { delay_secs: p.delay_secs }),
                )
            },
            _ => (SupervisorState::Active, SupervisorAction::NoAction),
        },
        SupervisorState::Reconnecting { attempt } => match ev {
            SupervisorEvent::AttemptSucceeded => (
                SupervisorState::Active,
                SupervisorAction::NoAction,
            ),
            SupervisorEvent::AttemptFailed => if attempt < p.max_attempts {
                (
                    (SupervisorState::Reconnecting { attempt: (attempt + 1) as u32 }),
                    (SupervisorAction::StartAttempt { delay_secs: p.delay_secs }),
                )
            } else {
                (SupervisorState::PermanentlyFailed, SupervisorAction::NoAction)
            },
            SupervisorEvent::NetworkEnded => (st, SupervisorAction::NoAction),
        },
        SupervisorState::PermanentlyFailed => (
            SupervisorState::PermanentlyFailed,
            SupervisorAction::NoAction,
        ),
    }
}

/// Drive the supervisor one step. The caller performs the returned action
/// (sleeping the delay, then re-establishing the transport with the stored
/// credential) and reports how the attempt resolved.
pub fn step(p: &RetryPolicy, st: SupervisorState, ev: SupervisorEvent) -> (r: (
    SupervisorState,
    SupervisorAction,
))
    ensures
        r == supervisor_step(*p, st, ev),
{
    match st {
        SupervisorState::Active => match ev {
            SupervisorEvent::NetworkEnded => {
                if p.max_attempts == 0 {
                    (SupervisorState::PermanentlyFailed, SupervisorAction::NoAction)
                } else {
                    (
                        SupervisorState::Reconnecting { attempt: 1 },
                        SupervisorAction::StartAttempt { delay_secs: p.delay_secs },
                    )
                }
            },
            _ => (SupervisorState::Active, SupervisorAction::NoAction),
        },
        SupervisorState::Reconnecting { attempt } => match ev {
            SupervisorEvent::AttemptSucceeded => (SupervisorState::Active, SupervisorAction::NoAction),
            SupervisorEvent::AttemptFailed => {
                if attempt < p.max_attempts {
                    (
                        SupervisorState::Reconnecting { attempt: attempt + 1 },
                        SupervisorAction::StartAttempt { delay_secs: p.delay_secs },
                    )
                } else {
                    (SupervisorState::PermanentlyFailed, SupervisorAction::NoAction)
                }
            },
            SupervisorEvent::NetworkEnded => (st, SupervisorAction::NoAction),
        },
        SupervisorState::PermanentlyFailed => (
            SupervisorState::PermanentlyFailed,
            SupervisorAction::NoAction,
        ),
    }
}

/// The state after a run of events.
pub open spec fn run_state(p: RetryPolicy, st: SupervisorState, evs: Seq<SupervisorEvent>) -> SupervisorState
    decreases evs.len(),
{
    if evs.len() == 0 {
        st
    } else {
        run_state(p, supervisor_step(p, st, evs[0]).0, evs.drop_first())
    }
}

/// How many reconnection attempts a run of events starts.
pub open spec fn attempts_started(p: RetryPolicy, st: SupervisorState, evs: Seq<SupervisorEvent>) -> nat
    decreases evs.len(),
{
    if evs.len() == 0 {
        0
    } else {
        (if supervisor_step(p, st, evs[0]).1 is StartAttempt {
            1nat
        } else {
            0nat
        }) + attempts_started(p, supervisor_step(p, st, evs[0]).0, evs.drop_first())
    }
}

/// Law: every attempt the supervisor starts waits the configured delay.
pub proof fn lemma_configured_delay(p: RetryPolicy, st: SupervisorState, ev: SupervisorEvent)
    ensures
        supervisor_step(p, st, ev).1 is StartAttempt ==> supervisor_step(p, st, ev).1
            == (SupervisorAction::StartAttempt { delay_secs: p.delay_secs }),
{
}

/// Law: a permanently failed session never starts another attempt, and never
/// leaves the failed state, whatever events still arrive.
pub proof fn lemma_failed_absorbs(p: RetryPolicy, evs: Seq<SupervisorEvent>)
    ensures
        run_state(p, SupervisorState::PermanentlyFailed, evs) == SupervisorState::PermanentlyFailed,
        attempts_started(p, SupervisorState::PermanentlyFailed, evs) == 0,
    decreases evs.len(),
{
    if evs.len() > 0 {
        lemma_failed_absorbs(p, evs.drop_first());
    }
}

/// While attempt `k` is in flight and every further attempt fails, at most
/// `max_attempts - k` more attempts are started.
proof fn lemma_reconnecting_bound(p: RetryPolicy, k: u32, evs: Seq<SupervisorEvent>)
    requires
        1 <= k <= p.max_attempts,
        forall|i: int| 0 <= i < evs.len() ==> evs[i] == SupervisorEvent::AttemptFailed,
    ensures
        attempts_started(p, (SupervisorState::Reconnecting { attempt: k }), evs) <= p.max_attempts
            - k,
    decreases evs.len(),
{
    if evs.len() > 0 {
        assert(evs[0] == SupervisorEvent::AttemptFailed);
        let next = supervisor_step(p, (SupervisorState::Reconnecting { attempt: k }), evs[0]).0;
        if k < p.max_attempts {
            assert(next == (SupervisorState::Reconnecting { attempt: (k + 1) as u32 }));
            assert(forall|i: int|
                0 <= i < evs.drop_first().len() ==> evs.drop_first()[i]
                    == SupervisorEvent::AttemptFailed);
            lemma_reconnecting_bound(p, (k + 1) as u32, evs.drop_first());
        } else {
            assert(next == SupervisorState::PermanentlyFailed);
            lemma_failed_absorbs(p, evs.drop_first());
        }
    }
}

/// Law: after one network loss that is never followed by a successful
/// attempt, the supervisor starts at most `max_attempts` reconnection
/// attempts, and once every one of them has failed the session is
/// `PermanentlyFailed` with no further attempts started.
pub proof fn lemma_bounded_retries(p: RetryPolicy, evs: Seq<SupervisorEvent>)
    requires
        evs.len() > 0,
        evs[0] == SupervisorEvent::NetworkEnded,
        forall|i: int| 1 <= i < evs.len() ==> evs[i] == SupervisorEvent::AttemptFailed,
    ensures
        attempts_started(p, SupervisorState::Active, evs) <= p.max_attempts,
        evs.len() > p.max_attempts ==> run_state(p, SupervisorState::Active, evs)
            == SupervisorState::PermanentlyFailed,
    decreases evs.len(),
{
    let rest = evs.drop_first();
    assert(forall|i: int| 0 <= i < rest.len() ==> rest[i] == SupervisorEvent::AttemptFailed);
    if p.max_attempts == 0 {
        lemma_failed_absorbs(p, rest);
    } else {
        lemma_reconnecting_bound(p, 1, rest);
        lemma_reconnecting_run(p, 1, rest);
    }
}

/// While attempt `k` is in flight and every further attempt fails, after more
/// failures than `max_attempts - k` the state is `PermanentlyFailed`.
proof fn lemma_reconnecting_run(p: RetryPolicy, k: u32, evs: Seq<SupervisorEvent>)
    requires
        1 <= k <= p.max_attempts,
        forall|i: int| 0 <= i < evs.len() ==> evs[i] == SupervisorEvent::AttemptFailed,
    ensures
        evs.len() > p.max_attempts - k ==> run_state(
            p,
            (SupervisorState::Reconnecting { attempt: k }),
            evs,
        ) == SupervisorState::PermanentlyFailed,
    decreases evs.len(),
{
    if evs.len() > 0 {
        let next = supervisor_step(p, (SupervisorState::Reconnecting { attempt: k }), evs[0]).0;
        if k < p.max_attempts {
            lemma_reconnecting_run(p, (k + 1) as u32, evs.drop_first());
        } else {
            lemma_failed_absorbs(p, evs.drop_first());
        }
    }
}

} // verus!
