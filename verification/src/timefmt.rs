use vstd::prelude::*;

verus! {

/// Offset of the feed's local time zone, in milliseconds east of UTC.
pub const FEED_ZONE_OFFSET_MS: i64 = 28800000;

/// Latest timestamp, in whole seconds, that the renderer is promised to
/// handle: the last second of the year 9999.
pub const RENDERABLE_MAX_SECS: i64 = 253402300799;

/// The text the calendar renderer produces for a timestamp, in whole seconds
/// since the epoch: year-month-day, a space, hour:minute:second.
pub uninterp spec fn local_datetime_text(secs: int) -> Seq<char>;

/// Relies on chrono::DateTime::from_timestamp, which returns `None` exactly
/// on an out-of-range number of seconds (every second up to the year 9999 is
/// well in range), and on the Display of chrono::NaiveDateTime, a fixed
/// calendar format that depends on the timestamp alone.
#[verifier::external_body]
fn datetime_text(secs: i64) -> (r: Option<String>)
    ensures
        r matches Some(s) ==> s@ == local_datetime_text(secs as int),
        0 <= secs <= RENDERABLE_MAX_SECS ==> r is Some,
{
    match chrono::DateTime::from_timestamp(secs, 0) {
        Some(dt) => Some(format!("{}", dt.naive_utc())),
        None => None,
    }
}

/// The localized whole-seconds timestamp of a feed creation time in epoch
/// milliseconds: the zone offset applied, then reduced to seconds.
pub open spec fn localized_secs(ms: i64) -> int {
    (ms + FEED_ZONE_OFFSET_MS) / 1000
}

/// Apply the feed's zone offset to an epoch-milliseconds timestamp and
/// reduce it to whole seconds. A negative or overflowing timestamp yields
/// `None`, and the caller skips its cycle.
pub fn localize_secs(ms: i64) -> (r: Option<i64>)
    ensures
        0 <= ms <= i64::MAX - FEED_ZONE_OFFSET_MS ==> (r matches Some(s) && s == localized_secs(
            ms,
        )),
        !(0 <= ms <= i64::MAX - FEED_ZONE_OFFSET_MS) ==> r is None,
{
    if ms < 0 {
        return None;
    }
    if ms > i64::MAX - FEED_ZONE_OFFSET_MS {
        return None;
    }
    let shifted: u64 = (ms + FEED_ZONE_OFFSET_MS) as u64;
    let secs: u64 = shifted / 1000;
    Some(secs as i64)
}

/// Render the localized creation time of a feed timestamp in epoch
/// milliseconds, `None` when it cannot be localized or lies outside the
/// renderable range.
pub fn render_local_time(ms: i64) -> (r: Option<String>)
    ensures
        r matches Some(s) ==> s@ == local_datetime_text(localized_secs(ms)),
        0 <= ms <= RENDERABLE_MAX_SECS * 1000 - FEED_ZONE_OFFSET_MS ==> r is Some,
{
    let secs = match localize_secs(ms) {
        Some(s) => s,
        None => {
            return None;
        },
    };
    proof {
        if 0 <= ms <= RENDERABLE_MAX_SECS * 1000 - FEED_ZONE_OFFSET_MS {
            vstd::arithmetic::div_mod::lemma_div_is_ordered(0, ms + FEED_ZONE_OFFSET_MS, 1000);
            vstd::arithmetic::div_mod::lemma_div_is_ordered(
                ms + FEED_ZONE_OFFSET_MS,
                RENDERABLE_MAX_SECS * 1000,
                1000,
            );
            vstd::arithmetic::div_mod::lemma_div_multiples_vanish(RENDERABLE_MAX_SECS as int, 1000);
        }
    }
    datetime_text(secs)
}

} // verus!
