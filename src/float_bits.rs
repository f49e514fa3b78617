//! Doubles of the native interface, held as their IEEE-754 bit patterns.
//!
//! The library moves doubles between the caller and the native library without
//! doing arithmetic on them; the few comparisons it needs are decided on the
//! bit pattern, where they are exact.
use vstd::prelude::*;

verus! {

/// The sign bit of a double.
pub const SIGN_BIT: u64 = 0x8000_0000_0000_0000;

/// The bit pattern of positive infinity; every larger magnitude is a NaN.
pub const INFINITY_BITS: u64 = 0x7FF0_0000_0000_0000;

/// The bit pattern of `1.0`.
pub const ONE_BITS: u64 = 0x3FF0_0000_0000_0000;

/// The magnitude of a double: its bit pattern without the sign bit.
pub open spec fn magnitude(b: u64) -> u64 {
    if b >= SIGN_BIT {
        (b - SIGN_BIT) as u64
    } else {
        b
    }
}

pub open spec fn is_nan(b: u64) -> bool {
    magnitude(b) > INFINITY_BITS
}

/// The double is `< 0.0`: negative, not a zero, not a NaN.
pub open spec fn is_negative(b: u64) -> bool {
    b >= SIGN_BIT && !is_nan(b) && magnitude(b) != 0
}

/// The double is `> 0.0`.
pub open spec fn is_positive(b: u64) -> bool {
    b < SIGN_BIT && !is_nan(b) && b != 0
}

/// The double is `> 1.0`. Non-negative doubles order as their bit patterns do.
pub open spec fn exceeds_one(b: u64) -> bool {
    b < SIGN_BIT && !is_nan(b) && b > ONE_BITS
}

/// The double is `<= 0.0`.
pub open spec fn at_most_zero(b: u64) -> bool {
    !is_nan(b) && (b >= SIGN_BIT || b == 0)
}

pub fn nan(b: u64) -> (r: bool)
    ensures
        r == is_nan(b),
{
    if b >= SIGN_BIT {
        b - SIGN_BIT > INFINITY_BITS
    } else {
        b > INFINITY_BITS
    }
}

pub fn less_than_zero(b: u64) -> (r: bool)
    ensures
        r == is_negative(b),
{
    b > SIGN_BIT && !nan(b)
}

pub fn greater_than_zero(b: u64) -> (r: bool)
    ensures
        r == is_positive(b),
{
    b < SIGN_BIT && b != 0 && !nan(b)
}

pub fn greater_than_one(b: u64) -> (r: bool)
    ensures
        r == exceeds_one(b),
{
    b < SIGN_BIT && b > ONE_BITS && !nan(b)
}

pub fn not_above_zero(b: u64) -> (r: bool)
    ensures
        r == at_most_zero(b),
{
    !nan(b) && (b >= SIGN_BIT || b == 0)
}

} // verus!
