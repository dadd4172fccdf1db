//! The wall clock, read as unix seconds.
use vstd::prelude::*;
use std::time::{Duration, SystemTime};

verus! {

#[verifier::external_type_specification]
#[verifier::external_body]
pub struct ExSystemTime(SystemTime);

/// `SystemTime::now`. Trusted to return; nothing is claimed of the time it reads.
#[verifier::external_body]
fn system_time_now() -> SystemTime {
    SystemTime::now()
}

/// `SystemTime::duration_since(UNIX_EPOCH)`, its error turned into `None`. Nothing
/// is claimed of the result: it depends on the clock.
#[verifier::external_body]
fn since_unix_epoch(t: &SystemTime) -> Option<Duration> {
    t.duration_since(std::time::UNIX_EPOCH).ok()
}

/// `Duration::as_secs`. Nothing is claimed of the whole seconds it returns.
#[verifier::external_body]
fn whole_seconds(d: &Duration) -> u64 {
    d.as_secs()
}

/// Unix seconds from the whole seconds elapsed since the epoch, if the clock is
/// past it: those seconds as an `i64` (wrapping, as `as` does), 0 otherwise.
pub fn unix_seconds_or_zero(elapsed: Option<u64>) -> (r: i64)
    ensures
        r == match elapsed {
            Some(s) => s as i64,
            None => 0i64,
        },
{
    match elapsed {
        Some(s) => s as i64,
        None => 0,
    }
}

/// The current time in unix seconds; 0 if the clock is before the epoch.
pub fn now_unix_s() -> i64 {
    let t = system_time_now();
    let secs = match since_unix_epoch(&t) {
        Some(d) => Some(whole_seconds(&d)),
        None => None,
    };
    unix_seconds_or_zero(secs)
}

} // verus!
