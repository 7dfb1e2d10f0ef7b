//! The time of day.

use core::time::Duration;
use std::time::{SystemTime, SystemTimeError, UNIX_EPOCH};
use vstd::prelude::*;

verus! {

#[verifier::external_type_specification]
#[verifier::external_body]
pub struct ExSystemTime(SystemTime);

#[verifier::external_type_specification]
#[verifier::external_body]
pub struct ExSystemTimeError(SystemTimeError);

/// Calls `SystemTime::now`, which reads the system's clock.
#[verifier::external_body]
fn system_now() -> SystemTime {
    SystemTime::now()
}

/// Calls `SystemTime::duration_since` with the Unix epoch, which gives the
/// time that has passed since then, and fails for a time before it.
#[verifier::external_body]
fn since_epoch(time: &SystemTime) -> Result<Duration, SystemTimeError> {
    time.duration_since(UNIX_EPOCH)
}

/// Calls `Duration::as_millis`, which gives the whole milliseconds of a
/// duration.
#[verifier::external_body]
fn whole_millis(duration: &Duration) -> u128 {
    duration.as_millis()
}

/// The timestamp that a reading of the clock stands for. The reading is the
/// whole milliseconds that have passed since the Unix epoch, or nothing
/// where the clock stands before the epoch. The timestamp is the lower 64
/// bits of the milliseconds, and zero where there are none.
pub open spec fn timestamp_of(elapsed: Option<u128>) -> u64 {
    match elapsed {
        Some(millis) => millis as u64,
        None => 0,
    }
}

/// The timestamp that a reading of the clock stands for.
pub fn timestamp_from(elapsed: Option<u128>) -> (timestamp: u64)
    ensures
        timestamp == timestamp_of(elapsed),
        elapsed matches Some(millis) ==> millis <= u64::MAX ==> timestamp == millis,
        elapsed is None ==> timestamp == 0,
{
    match elapsed {
        Some(millis) => {
            assert(millis <= 0xffff_ffff_ffff_ffff ==> millis as u64 == millis) by (bit_vector);
            #[verifier::truncate]
            (millis as u64)
        },
        None => 0,
    }
}

/// The time now, in milliseconds since the Unix epoch: the timestamp that
/// the reading of the system's clock stands for.
pub fn now_millis() -> u64 {
    let elapsed = match since_epoch(&system_now()) {
        Ok(duration) => Some(whole_millis(&duration)),
        Err(_) => None,
    };
    timestamp_from(elapsed)
}

} // verus!
