//! Durations and instants are carried as whole nanoseconds, which represents
//! every `std::time::Duration` exactly.

use vstd::prelude::*;

verus! {

/// Nanoseconds in one second.
pub const NANOS_PER_SEC: u128 = 1_000_000_000;

/// Nanoseconds in one millisecond.
pub const NANOS_PER_MILLI: u128 = 1_000_000;

/// The number of nanoseconds in `s` seconds.
pub open spec fn secs(s: nat) -> nat {
    s * 1_000_000_000
}

/// A duration of `s` whole seconds, in nanoseconds.
pub fn from_secs(s: u64) -> (r: u128)
    ensures
        r == secs(s as nat),
{
    assert(s * 1_000_000_000 <= u128::MAX) by (nonlinear_arith)
        requires s <= u64::MAX;
    (s as u128) * NANOS_PER_SEC
}

/// A duration of `ms` whole milliseconds, in nanoseconds.
pub fn from_millis(ms: u64) -> (r: u128)
    ensures
        r == ms * 1_000_000,
{
    assert(ms * 1_000_000 <= u128::MAX) by (nonlinear_arith)
        requires ms <= u64::MAX;
    (ms as u128) * NANOS_PER_MILLI
}

} // verus!
