//! The creation instant of a block, read from the system clock.

use crate::text::{decimal_string, decimal_text, is_decimal};
use std::time::{Duration, SystemTime, SystemTimeError, UNIX_EPOCH};
use vstd::prelude::*;

verus! {

/// `std::time::SystemTime`: a reading of the system clock, opaque here.
#[verifier::external_type_specification]
#[verifier::external_body]
pub struct ExSystemTime(SystemTime);

/// `std::time::SystemTimeError`: what `duration_since` returns when the
/// reading lies before the instant it is measured from. Opaque here.
#[verifier::external_type_specification]
#[verifier::external_body]
pub struct ExSystemTimeError(SystemTimeError);

/// `SystemTime::now` reads the clock. Nothing is claimed of the reading.
pub assume_specification[ SystemTime::now ]() -> (reading: SystemTime);

/// `SystemTime::duration_since` measures the time from `earlier` to `reading`,
/// or fails. Nothing is claimed of either outcome.
pub assume_specification[ SystemTime::duration_since ](
    reading: &SystemTime,
    earlier: SystemTime,
) -> (elapsed: Result<Duration, SystemTimeError>);

/// `Duration::as_millis` gives a duration in whole milliseconds. Nothing is
/// claimed of the number.
pub assume_specification[ Duration::as_millis ](elapsed: &Duration) -> (millis: u128);

/// The instant that timestamps count from: `std::time::UNIX_EPOCH`.
#[verifier::external_body]
fn unix_epoch() -> (epoch: SystemTime) {
    UNIX_EPOCH
}

/// The timestamp for a clock reading: the milliseconds elapsed since the
/// epoch in decimal, and `0` where there is no such number because the clock
/// is set before the epoch.
pub fn timestamp_of(millis: Option<u128>) -> (timestamp: String)
    ensures
        timestamp@ == match millis {
            Some(elapsed) => decimal_text(elapsed as nat),
            None => decimal_text(0),
        },
        is_decimal(timestamp@),
{
    match millis {
        Some(elapsed) => decimal_string(elapsed),
        None => decimal_string(0),
    }
}

/// The timestamp of the present instant.
pub fn timestamp_now() -> (timestamp: String)
    ensures
        is_decimal(timestamp@),
{
    let reading = SystemTime::now();
    match reading.duration_since(unix_epoch()) {
        Ok(elapsed) => timestamp_of(Some(elapsed.as_millis())),
        Err(_) => timestamp_of(None),
    }
}

} // verus!
