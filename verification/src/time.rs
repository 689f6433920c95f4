//! The wall clock, in milliseconds since the Unix epoch.

use std::time::{Duration, SystemTime, SystemTimeError};
use vstd::prelude::*;

verus! {

/// `std::time::SystemTime`: a reading of the system clock, carried from one
/// call to the next and never looked into.
#[verifier::external_type_specification]
#[verifier::external_body]
pub struct ExSystemTime(std::time::SystemTime);

/// `SystemTime::now`: the current reading of the system clock. Nothing is
/// claimed of it.
#[verifier::external_body]
fn system_now() -> SystemTime {
    SystemTime::now()
}

/// `std::time::SystemTimeError`: the error of a clock reading that lies
/// before the moment it is measured from, never looked into.
#[verifier::external_type_specification]
#[verifier::external_body]
pub struct ExSystemTimeError(std::time::SystemTimeError);

/// `SystemTime::duration_since` the Unix epoch: the time elapsed since the
/// epoch, or an error where `now` lies before it. Nothing is claimed of
/// either.
#[verifier::external_body]
fn since_epoch(now: &SystemTime) -> Result<Duration, SystemTimeError> {
    now.duration_since(std::time::UNIX_EPOCH)
}

/// `SystemTimeError::duration`: how far before the epoch the reading lies.
/// Nothing is claimed of the distance.
#[verifier::external_body]
fn before_epoch(error: &SystemTimeError) -> Duration {
    error.duration()
}

/// `Duration::as_millis`: the whole milliseconds of a duration. Nothing is
/// claimed of the number.
#[verifier::external_body]
fn as_millis(duration: &Duration) -> u128 {
    duration.as_millis()
}

/// The timestamp of a clock reading `elapsed` milliseconds after the epoch
/// (`Ok`) or before it (`Err`): the low 64 bits of the distance for a reading
/// after the epoch, its negative for a reading before, held at `i64::MIN`.
pub open spec fn timestamp_of(elapsed: Result<u128, u128>) -> i64 {
    match elapsed {
        Ok(ms) => ms as i64,
        Err(ms) => if ms > i64::MAX {
            i64::MIN
        } else {
            (-(ms as int)) as i64
        },
    }
}

/// The timestamp of a clock reading; see [`timestamp_of`].
pub fn timestamp_from(elapsed: Result<u128, u128>) -> (timestamp: i64)
    ensures
        timestamp == timestamp_of(elapsed),
{
    match elapsed {
        Ok(ms) => #[verifier::truncate]
        (ms as i64),
        Err(ms) => {
            if ms > i64::MAX as u128 {
                i64::MIN
            } else {
                let behind: i64 = ms as i64;
                -behind
            }
        },
    }
}

/// The current time in milliseconds since the Unix epoch; negative while the
/// system clock stands before it.
pub fn now_timestamp_ms() -> i64 {
    let now = system_now();
    let elapsed = match since_epoch(&now) {
        Ok(after) => Ok(as_millis(&after)),
        Err(error) => Err(as_millis(&before_epoch(&error))),
    };
    timestamp_from(elapsed)
}

} // verus!
