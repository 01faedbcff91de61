//! The wall clock, read in whole seconds since the Unix epoch: the
//! heartbeat stamped into pane identity tokens.

use vstd::prelude::*;

verus! {

#[verifier::external_type_specification]
#[verifier::external_body]
pub struct ExSystemTime(std::time::SystemTime);

#[verifier::external_type_specification]
#[verifier::external_body]
pub struct ExSystemTimeError(std::time::SystemTimeError);

/// `SystemTime::now()`: the current wall-clock time. Nothing is stated of
/// it; it changes from call to call.
#[verifier::external_body]
pub(crate) fn system_now() -> (t: std::time::SystemTime) {
    std::time::SystemTime::now()
}

/// `SystemTime::duration_since(UNIX_EPOCH)`: how long after the epoch `t`
/// lies, or an error when `t` is before it. Nothing is stated of the value.
#[verifier::external_body]
pub(crate) fn since_epoch(t: std::time::SystemTime) -> (r: Result<
    std::time::Duration,
    std::time::SystemTimeError,
>) {
    t.duration_since(std::time::UNIX_EPOCH)
}

/// `Duration::as_secs`: the whole seconds of a duration. `Duration` is
/// opaque here, so nothing is stated of the value.
#[verifier::external_body]
pub(crate) fn whole_secs(d: std::time::Duration) -> (s: u64) {
    d.as_secs()
}

/// Whole seconds since the epoch from a clock reading: the reading's
/// seconds, or 0 when the clock read before the epoch (`None`).
pub fn seconds_or_zero(since: Option<u64>) -> (s: u64)
    ensures
        s == match since {
            Some(secs) => secs,
            None => 0,
        },
{
    match since {
        Some(secs) => secs,
        None => 0,
    }
}

/// Unix seconds now; 0 when the clock reads before the epoch.
pub(crate) fn unix_seconds() -> (s: u64) {
    let since = match since_epoch(system_now()) {
        Ok(d) => Some(whole_secs(d)),
        Err(_) => None,
    };
    seconds_or_zero(since)
}

} // verus!
