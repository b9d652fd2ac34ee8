//! Comparison of IEEE 754 binary64 and binary32 numbers held as their bit
//! patterns.
//!
//! Configuration values that the API exchanges as double-precision numbers
//! are kept here as the 64-bit pattern that `f64::to_bits` gives. The order
//! below is the one that `<` has on `f64`: a NaN compares false with
//! everything, and the two zeros are equal.

use vstd::prelude::*;

verus! {

/// The sign bit of a binary64 pattern.
pub const F64_SIGN_BIT: u64 = 0x8000_0000_0000_0000;

/// The pattern of positive infinity; larger magnitudes are NaN.
pub const F64_INFINITY_BITS: u64 = 0x7FF0_0000_0000_0000;

/// Whether the pattern has its sign bit set.
pub open spec fn f64_negative_sign(b: u64) -> bool {
    b >= F64_SIGN_BIT
}

/// The pattern without its sign bit.
pub open spec fn f64_magnitude(b: u64) -> u64 {
    if f64_negative_sign(b) { (b - F64_SIGN_BIT) as u64 } else { b }
}

/// Whether the pattern is a NaN.
pub open spec fn f64_is_nan(b: u64) -> bool {
    f64_magnitude(b) > F64_INFINITY_BITS
}

/// Whether the pattern is a zero of either sign.
pub open spec fn f64_is_zero(b: u64) -> bool {
    f64_magnitude(b) == 0
}

/// `a < b` on the numbers that the patterns encode.
pub open spec fn f64_lt(a: u64, b: u64) -> bool {
    if f64_is_nan(a) || f64_is_nan(b) || (f64_is_zero(a) && f64_is_zero(b)) {
        false
    } else if f64_negative_sign(a) && !f64_negative_sign(b) {
        true
    } else if !f64_negative_sign(a) && f64_negative_sign(b) {
        false
    } else if !f64_negative_sign(a) {
        a < b
    } else {
        a > b
    }
}

/// `a == b` on the numbers that the patterns encode.
pub open spec fn f64_eq(a: u64, b: u64) -> bool {
    !f64_is_nan(a) && !f64_is_nan(b) && (a == b || (f64_is_zero(a) && f64_is_zero(b)))
}

/// `a <= b` on the numbers that the patterns encode.
pub open spec fn f64_le(a: u64, b: u64) -> bool {
    f64_lt(a, b) || f64_eq(a, b)
}

/// Whether the pattern is a finite number: neither an infinity nor a NaN.
pub open spec fn f64_is_finite(b: u64) -> bool {
    f64_magnitude(b) < F64_INFINITY_BITS
}

/// Whether the pattern `a` is a finite number.
pub fn f64_bits_is_finite(a: u64) -> (r: bool)
    ensures
        r == f64_is_finite(a),
{
    let a_mag = if a >= F64_SIGN_BIT { a - F64_SIGN_BIT } else { a };
    a_mag < F64_INFINITY_BITS
}

/// Whether the pattern `a` is a NaN.
pub fn f64_bits_is_nan(a: u64) -> (r: bool)
    ensures
        r == f64_is_nan(a),
{
    let a_mag = if a >= F64_SIGN_BIT { a - F64_SIGN_BIT } else { a };
    a_mag > F64_INFINITY_BITS
}

/// `a <= b` on the numbers that the patterns `a` and `b` encode.
pub fn f64_bits_le(a: u64, b: u64) -> (r: bool)
    ensures
        r == f64_le(a, b),
{
    f64_bits_lt(a, b) || f64_bits_eq(a, b)
}

/// `a == b` on the numbers that the patterns `a` and `b` encode.
pub fn f64_bits_eq(a: u64, b: u64) -> (r: bool)
    ensures
        r == f64_eq(a, b),
{
    let a_mag = if a >= F64_SIGN_BIT { a - F64_SIGN_BIT } else { a };
    let b_mag = if b >= F64_SIGN_BIT { b - F64_SIGN_BIT } else { b };
    a_mag <= F64_INFINITY_BITS && b_mag <= F64_INFINITY_BITS && (a == b || (a_mag == 0 && b_mag == 0))
}

/// `a < b` on the numbers that the patterns `a` and `b` encode.
pub fn f64_bits_lt(a: u64, b: u64) -> (r: bool)
    ensures
        r == f64_lt(a, b),
{
    let a_neg = a >= F64_SIGN_BIT;
    let b_neg = b >= F64_SIGN_BIT;
    let a_mag = if a_neg { a - F64_SIGN_BIT } else { a };
    let b_mag = if b_neg { b - F64_SIGN_BIT } else { b };
    if a_mag > F64_INFINITY_BITS || b_mag > F64_INFINITY_BITS || (a_mag == 0 && b_mag == 0) {
        false
    } else if a_neg && !b_neg {
        true
    } else if !a_neg && b_neg {
        false
    } else if !a_neg {
        a < b
    } else {
        a > b
    }
}

/// The sign bit of a binary32 pattern.
pub const F32_SIGN_BIT: u32 = 0x8000_0000;

/// The pattern of binary32 positive infinity; larger magnitudes are NaN.
pub const F32_INFINITY_BITS: u32 = 0x7F80_0000;

/// Whether the binary32 pattern has its sign bit set.
pub open spec fn f32_negative_sign(b: u32) -> bool {
    b >= F32_SIGN_BIT
}

/// The binary32 pattern without its sign bit.
pub open spec fn f32_magnitude(b: u32) -> u32 {
    if f32_negative_sign(b) { (b - F32_SIGN_BIT) as u32 } else { b }
}

/// Whether the binary32 pattern is a NaN.
pub open spec fn f32_is_nan(b: u32) -> bool {
    f32_magnitude(b) > F32_INFINITY_BITS
}

/// Whether the binary32 pattern is a zero of either sign.
pub open spec fn f32_is_zero(b: u32) -> bool {
    f32_magnitude(b) == 0
}

/// `a < b` on the binary32 numbers that the patterns encode.
pub open spec fn f32_lt(a: u32, b: u32) -> bool {
    if f32_is_nan(a) || f32_is_nan(b) || (f32_is_zero(a) && f32_is_zero(b)) {
        false
    } else if f32_negative_sign(a) && !f32_negative_sign(b) {
        true
    } else if !f32_negative_sign(a) && f32_negative_sign(b) {
        false
    } else if !f32_negative_sign(a) {
        a < b
    } else {
        a > b
    }
}

/// `a == b` on the binary32 numbers that the patterns encode.
pub open spec fn f32_eq(a: u32, b: u32) -> bool {
    !f32_is_nan(a) && !f32_is_nan(b) && (a == b || (f32_is_zero(a) && f32_is_zero(b)))
}

/// `a <= b` on the binary32 numbers that the patterns encode.
pub open spec fn f32_le(a: u32, b: u32) -> bool {
    f32_lt(a, b) || f32_eq(a, b)
}

/// `a <= b` on the binary32 numbers that the patterns `a` and `b` encode.
pub fn f32_bits_le(a: u32, b: u32) -> (r: bool)
    ensures
        r == f32_le(a, b),
{
    let a_neg = a >= F32_SIGN_BIT;
    let b_neg = b >= F32_SIGN_BIT;
    let a_mag = if a_neg { a - F32_SIGN_BIT } else { a };
    let b_mag = if b_neg { b - F32_SIGN_BIT } else { b };
    if a_mag > F32_INFINITY_BITS || b_mag > F32_INFINITY_BITS {
        false
    } else if a == b || (a_mag == 0 && b_mag == 0) {
        true
    } else if a_neg && !b_neg {
        true
    } else if !a_neg && b_neg {
        false
    } else if !a_neg {
        a < b
    } else {
        a > b
    }
}

} // verus!
