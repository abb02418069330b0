//! Time as this crate sees it: whole seconds since the Unix epoch.

use vstd::prelude::*;

verus! {

/// The instant `span` seconds after `now`, held at the last representable
/// second where the sum would pass it.
pub open spec fn deadline_after(now: i64, span: u32) -> i64 {
    if now + span > i64::MAX {
        i64::MAX
    } else {
        (now + span) as i64
    }
}

/// The instant `span` seconds after `now`.
pub fn deadline(now: i64, span: u32) -> (r: i64)
    ensures
        r == deadline_after(now, span),
        r >= now,
{
    let wide: i64 = span as i64;
    if now > i64::MAX - wide {
        i64::MAX
    } else {
        now + wide
    }
}

/// The current second, from `chrono::Utc::now` and `DateTime::timestamp`.
/// The reading is that of the system clock, which `chrono` refuses to report
/// when it stands before the epoch: the result is never negative.
#[verifier::external_body]
pub(crate) fn unix_now() -> (r: i64)
    ensures
        r >= 0,
{
    chrono::Utc::now().timestamp()
}

} // verus!
