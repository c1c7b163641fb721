use vstd::prelude::*;
use crate::feed::FeedItem;
use crate::message::{OutboundMessage, render_message, spec_mentions, spec_message_text};
use crate::timefmt::{FEED_ZONE_OFFSET_MS, RENDERABLE_MAX_SECS, local_datetime_text, localized_secs, render_local_time};

verus! {

/// The account notifications are forwarded to: as a group on routine cycles,
/// as the linked self/admin account on the bootstrap cycle.
pub const FORWARD_TARGET: i64 = 797443771;

/// Where one forward goes.
#[derive(Clone, Copy, Debug, PartialEq, Eq, Structural)]
pub enum ForwardTarget {
    SelfChannel { uin: i64 },
    Group { group_id: i64 },
}

/// What one poll cycle decides: attempt one forward and persist the new
/// cursor, or do nothing this cycle.
#[derive(Clone, Debug)]
pub enum PollOutcome {
    Forward { target: ForwardTarget, message: OutboundMessage, new_cursor: i64 },
    Skip,
}

/// Whether a cycle that sees cursor state `cursor` and an item created at
/// `ct` attempts a forward: on the first-ever poll, and then only for an
/// item strictly newer than the one the cursor records, so the cursor is
/// never rewound and no recorded value is forwarded again.
pub open spec fn forwards(cursor: Option<i64>, ct: i64) -> bool {
    match cursor {
        Option::None => true,
        Option::Some(c) => c < ct,
    }
}

/// The cursor persisted after the cycle: advanced to the item exactly when
/// a forward is attempted, untouched otherwise — never rewound, never
/// cleared, never advanced without an attempt.
pub open spec fn next_cursor(cursor: Option<i64>, ct: i64) -> Option<i64> {
    if forwards(cursor, ct) {
        Some(ct)
    } else {
        cursor
    }
}

/// The target of a forward: the self/admin channel on the first-ever poll,
/// the shared group once a cursor exists.
pub open spec fn forward_target(cursor: Option<i64>) -> ForwardTarget {
    if cursor is None {
        (ForwardTarget::SelfChannel { uin: FORWARD_TARGET })
    } else {
        (ForwardTarget::Group { group_id: FORWARD_TARGET })
    }
}

/// Decide one poll cycle with the localized creation time already rendered:
/// forward exactly when the item is strictly newer than the recorded cursor
/// (or no cursor exists yet), to the target the cursor state owes, with the
/// rendered message and the item's timestamp as the cursor to persist.
pub fn poll_step(cursor: Option<i64>, item: &FeedItem, when: &str) -> (o: PollOutcome)
    ensures
        (o is Forward) == forwards(cursor, item.create_time),
        o matches PollOutcome::Forward { target, message, new_cursor } ==> target
            == forward_target(cursor) && new_cursor == item.create_time && Some(new_cursor)
            == next_cursor(cursor, item.create_time) && message.mentions@ == spec_mentions(
            item.content@,
        ) && message.text@ == spec_message_text(*item, when@),
{
    match cursor {
        Some(c) => {
            if c >= item.create_time {
                PollOutcome::Skip
            } else {
                PollOutcome::Forward {
                    target: ForwardTarget::Group { group_id: FORWARD_TARGET },
                    message: render_message(item, when),
                    new_cursor: item.create_time,
                }
            }
        },
        None => PollOutcome::Forward {
            target: ForwardTarget::SelfChannel { uin: FORWARD_TARGET },
            message: render_message(item, when),
            new_cursor: item.create_time,
        },
    }
}

/// Run one poll cycle on a fetched item: check the cursor, localize and
/// render the creation time, and decide whether, where and with what new
/// cursor to forward. An item whose timestamp cannot be localized or
/// rendered skips the cycle; every nonnegative timestamp up to the year 9999
/// is owed a forward when it is newer than the recorded cursor.
pub fn poll_cycle(cursor: Option<i64>, item: &FeedItem) -> (o: PollOutcome)
    ensures
        !forwards(cursor, item.create_time) ==> o is Skip,
        o matches PollOutcome::Forward { target, message, new_cursor } ==> forwards(
            cursor,
            item.create_time,
        ) && target == forward_target(cursor) && new_cursor == item.create_time && Some(new_cursor)
            == next_cursor(cursor, item.create_time) && message.mentions@ == spec_mentions(
            item.content@,
        ) && message.text@ == spec_message_text(
            *item,
            local_datetime_text(localized_secs(item.create_time)),
        ),
        forwards(cursor, item.create_time) && 0 <= item.create_time <= RENDERABLE_MAX_SECS * 1000
            - FEED_ZONE_OFFSET_MS ==> o is Forward,
{
    match cursor {
        Some(c) => {
            if c >= item.create_time {
                return PollOutcome::Skip;
            }
        },
        None => {},
    }
    let when = match render_local_time(item.create_time) {
        Some(w) => w,
        None => {
            return PollOutcome::Skip;
        },
    };
    poll_step(cursor, item, when.as_str())
}

/// Law: a timestamp newer than everything the cursor has recorded is
/// forwarded, and the cursor then records exactly it; the same item seen
/// again is not forwarded and leaves the cursor as it is.
pub proof fn lemma_forward_once(cursor: Option<i64>, ct: i64)
    requires
        cursor is None || (cursor matches Some(c) && c < ct),
    ensures
        forwards(cursor, ct),
        next_cursor(cursor, ct) == Some(ct),
        !forwards(Some(ct), ct),
        next_cursor(Some(ct), ct) == Some(ct),
{
}

/// Law: the cursor only advances. Whatever item a cycle sees, an existing
/// cursor is never rewound and never cleared: the cursor after the cycle is
/// at least the cursor before it, and it moves exactly when a forward is
/// attempted, to the forwarded item's own timestamp.
pub proof fn lemma_cursor_monotonic(cursor: Option<i64>, ct: i64)
    ensures
        cursor matches Some(c) ==> (next_cursor(cursor, ct) matches Some(n) && n >= c),
        next_cursor(cursor, ct) == cursor || (forwards(cursor, ct) && next_cursor(cursor, ct)
            == Some(ct)),
{
}

/// Law: the bootstrap forward (no prior cursor) goes to the self/admin
/// channel; every forward under an existing cursor goes to the shared group.
pub proof fn lemma_forward_targets(c: i64)
    ensures
        forward_target(None) == (ForwardTarget::SelfChannel { uin: FORWARD_TARGET }),
        forward_target(Some(c)) == (ForwardTarget::Group { group_id: FORWARD_TARGET }),
{
}

} // verus!
