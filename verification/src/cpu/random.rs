//! The random byte, and the system clock from which it is drawn.

use std::time::{Duration, SystemTime, UNIX_EPOCH};
use vstd::prelude::*;

verus! {

/// `std::time::SystemTime`, a point in time as the system clock measures it.
/// Nothing is known of what a value holds.
#[verifier::external_type_specification]
#[verifier::external_body]
pub struct ExSystemTime(SystemTime);

/// `SystemTime::now` reads the system clock. Nothing is claimed about the
/// time that it returns.
pub assume_specification[ SystemTime::now ]() -> (now: SystemTime);

/// `Duration::subsec_nanos` gives the part of a duration below one second, in
/// nanoseconds. Its documentation says that this is less than one billion;
/// no more is claimed here.
pub assume_specification[ Duration::subsec_nanos ](elapsed: &Duration) -> (nanos: u32)
    ensures
        nanos < 1_000_000_000,
;

/// Calls `SystemTime::duration_since` with `UNIX_EPOCH`: the time from the
/// start of 1970 to `now`, or `None` where `now` lies before 1970. Nothing is
/// claimed about the duration.
#[verifier::external_body]
pub(crate) fn since_epoch(now: &SystemTime) -> (elapsed: Option<Duration>) {
    match now.duration_since(UNIX_EPOCH) {
        Ok(elapsed) => Some(elapsed),
        Err(_) => None,
    }
}

/// The random byte that a reading of the clock stands for: the reading's
/// nanoseconds modulo 256, or 0 where there is no reading.
pub open spec fn byte_of_reading(reading: Option<u32>) -> u8 {
    match reading {
        Some(nanos) => (nanos % 256) as u8,
        None => 0,
    }
}

/// Makes the random byte of a reading of the clock: the low eight bits of
/// its nanoseconds, or 0 where the clock gave no reading.
pub fn random_byte(reading: Option<u32>) -> (byte: u8)
    ensures
        byte == byte_of_reading(reading),
{
    match reading {
        Some(nanos) => {
            assert(nanos & 0xFF == nanos % 256) by (bit_vector);
            (nanos & 0xFF) as u8
        },
        None => 0,
    }
}

} // verus!
