//! The system clock.

use std::time::{Duration, SystemTime};
use vstd::prelude::*;

verus! {

/// `std::time::SystemTime`: a reading of the system clock, carried as an
/// opaque value.
#[verifier::external_type_specification]
#[verifier::external_body]
pub struct ExSystemTime(SystemTime);

/// `SystemTime::now`: the current reading of the system clock. Nothing is
/// claimed of the reading.
#[verifier::external_body]
fn system_now() -> SystemTime {
    SystemTime::now()
}

/// `SystemTime::duration_since`, measured from `UNIX_EPOCH`: the time elapsed
/// since the epoch, or nothing where the clock reads earlier than the epoch.
/// Nothing is claimed of the duration.
#[verifier::external_body]
fn since_unix_epoch(time: &SystemTime) -> Option<Duration> {
    time.duration_since(std::time::UNIX_EPOCH).ok()
}

/// `Duration::as_millis`: the whole milliseconds of a duration. Nothing is
/// claimed of the number.
pub assume_specification[ Duration::as_millis ](duration: &Duration) -> u128;

/// Get the current Unix timestamp in milliseconds, cut to 64 bits; zero
/// where the system clock reads earlier than the epoch.
pub fn get_timestamp_ms() -> (timestamp: u64)
    ensures
        exists|elapsed_millis: Option<u128>| timestamp == #[trigger] timestamp_of(elapsed_millis),
{
    let now = system_now();
    let elapsed_millis = match since_unix_epoch(&now) {
        Some(elapsed) => Some(elapsed.as_millis()),
        None => None,
    };
    timestamp_from_elapsed(elapsed_millis)
}

/// The timestamp for a clock that reads `elapsed_millis` milliseconds after
/// the epoch, or earlier than the epoch (`None`): the low 64 bits of the
/// milliseconds, else zero.
pub open spec fn timestamp_of(elapsed_millis: Option<u128>) -> u64 {
    match elapsed_millis {
        Some(millis) => (millis % 0x1_0000_0000_0000_0000) as u64,
        None => 0,
    }
}

/// The timestamp for what the system clock answered: the milliseconds that
/// it reads after the epoch, cut to 64 bits, or zero where it reads earlier
/// than the epoch.
pub fn timestamp_from_elapsed(elapsed_millis: Option<u128>) -> (timestamp: u64)
    ensures
        timestamp == timestamp_of(elapsed_millis),
{
    match elapsed_millis {
        Some(millis) => {
            let timestamp =
            #[verifier::truncate]
            (millis as u64);
            assert(timestamp == millis % 0x1_0000_0000_0000_0000) by (bit_vector)
                requires
                    timestamp == millis as u64,
            ;
            timestamp
        },
        None => 0,
    }
}

} // verus!
