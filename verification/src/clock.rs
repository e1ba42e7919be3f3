//! The system clock.

use vstd::prelude::*;
use std::time::{Duration, SystemTime, SystemTimeError};

verus! {

/// A point in time of the system clock.
#[verifier::external_type_specification]
#[verifier::external_body]
pub struct ExSystemTime(SystemTime);

/// The error of a time difference that is negative; it holds the difference
/// the other way round.
#[verifier::external_type_specification]
#[verifier::external_body]
pub struct ExSystemTimeError(SystemTimeError);

/// The system clock's current time (`SystemTime::now`). Trusted item; nothing
/// is stated of the value, which is read from the clock.
#[verifier::external_body]
fn system_now() -> SystemTime {
    SystemTime::now()
}

/// The time elapsed from the Unix epoch to `t`
/// (`SystemTime::duration_since(UNIX_EPOCH)`), or the error when `t` is
/// earlier than the epoch. Trusted item; nothing is stated of the result.
#[verifier::external_body]
fn since_epoch(t: &SystemTime) -> Result<Duration, SystemTimeError> {
    t.duration_since(std::time::UNIX_EPOCH)
}

/// How far the later time lies beyond the earlier one in a failed
/// `duration_since` (`SystemTimeError::duration`). Trusted item; nothing is
/// stated of the duration, which is opaque here.
#[verifier::external_body]
fn error_duration(e: &SystemTimeError) -> Duration {
    e.duration()
}

/// The whole seconds of a duration (`Duration::as_secs`). Trusted item; nothing
/// is stated of the value, since the duration is opaque here.
#[verifier::external_body]
fn whole_secs(d: &Duration) -> u64 {
    d.as_secs()
}

/// The nanoseconds past the whole seconds of a duration
/// (`Duration::subsec_nanos`). Trusted item; its documentation states that
/// the value is always less than one billion.
#[verifier::external_body]
fn subsec_nanos(d: &Duration) -> (r: u32)
    ensures
        r < 1_000_000_000,
{
    d.subsec_nanos()
}

/// The current time by the system clock as a Unix timestamp: the whole
/// seconds since the epoch, rounded down (so negative before the epoch), and
/// the nanoseconds past that second. Times whose seconds do not fit in an
/// `i64` are held at `i64::MIN` or `i64::MAX`.
pub(crate) fn now() -> (r: (i64, u32))
    ensures
        r.1 < 1_000_000_000,
{
    let t = system_now();
    match since_epoch(&t) {
        Ok(d) => {
            let s: u64 = whole_secs(&d);
            let n: u32 = subsec_nanos(&d);
            if s <= i64::MAX as u64 {
                (s as i64, n)
            } else {
                (i64::MAX, n)
            }
        },
        Err(e) => {
            // The time lies `s` seconds and `n` nanoseconds before the epoch.
            let d = error_duration(&e);
            let s: u64 = whole_secs(&d);
            let n: u32 = subsec_nanos(&d);
            if s > i64::MAX as u64 {
                (i64::MIN, 0)
            } else if n == 0 {
                (-(s as i64), 0)
            } else {
                (-(s as i64) - 1, 1_000_000_000 - n)
            }
        },
    }
}

} // verus!
