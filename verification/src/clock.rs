//! Readings of the system clock.

use vstd::prelude::*;

verus! {

/// Microseconds since the Unix epoch, from `SystemTime::now`; zero when the
/// clock reads before the epoch. Nothing is stated of the reading: it
/// depends on the machine's clock.
#[verifier::external_body]
pub fn now_micros() -> (r: u64) {
    std::time::SystemTime::now().duration_since(std::time::UNIX_EPOCH).unwrap_or_default().as_micros() as u64
}

/// Nanoseconds since the Unix epoch, from `SystemTime::now`; zero when the
/// clock reads before the epoch. Nothing is stated of the reading.
#[verifier::external_body]
pub fn now_nanos() -> (r: u128) {
    std::time::SystemTime::now().duration_since(std::time::UNIX_EPOCH).unwrap_or_default().as_nanos()
}

} // verus!
