//! The wall clock.

use vstd::prelude::*;

verus! {

/// A time the clock can report: the Unix epoch or later (a clock set before
/// the epoch reads as the epoch).
pub open spec fn clock_secs(t: i64) -> bool {
    t >= 0
}

/// A time in milliseconds the clock can report: the epoch or later.
pub open spec fn clock_millis(t: i64) -> bool {
    t >= 0
}

/// `SystemTime::now()` since the Unix epoch in whole seconds; 0 when the
/// clock is before the epoch or the count does not fit an `i64`. The value
/// depends on the time of the call, so only its sign is stated.
#[verifier::external_body]
pub(crate) fn now_unix_secs() -> (t: i64)
    ensures
        clock_secs(t),
{
    std::time::SystemTime::now()
        .duration_since(std::time::UNIX_EPOCH)
        .ok()
        .and_then(|d| i64::try_from(d.as_secs()).ok())
        .unwrap_or(0)
}

/// `SystemTime::now()` since the Unix epoch in whole milliseconds; 0 when the
/// clock is before the epoch or the count does not fit an `i64`. The value
/// depends on the time of the call, so only its sign is stated.
#[verifier::external_body]
pub(crate) fn now_unix_millis() -> (t: i64)
    ensures
        clock_millis(t),
{
    std::time::SystemTime::now()
        .duration_since(std::time::UNIX_EPOCH)
        .ok()
        .and_then(|d| i64::try_from(d.as_millis()).ok())
        .unwrap_or(0)
}

} // verus!
