//! The ordering of IEEE-754 binary64 values, read from their bit patterns.
//!
//! A value is handed over as the `u64` returned by `to_bits`. Apart from NaN,
//! binary64 values are ordered as sign-magnitude integers, with the two zeros
//! equal; every comparison with a NaN is false.
use vstd::prelude::*;

verus! {

/// The sign bit.
pub const SIGN_BIT: u64 = 0x8000_0000_0000_0000;

/// The bit pattern of positive infinity.
pub const POSITIVE_INFINITY: u64 = 0x7FF0_0000_0000_0000;

/// The bit pattern of negative infinity.
pub const NEGATIVE_INFINITY: u64 = 0xFFF0_0000_0000_0000;

pub open spec fn is_negative_bits(b: u64) -> bool {
    b >= SIGN_BIT
}

/// The absolute value's bits: the pattern with its sign bit cleared.
pub open spec fn magnitude(b: u64) -> u64 {
    if is_negative_bits(b) {
        (b - SIGN_BIT) as u64
    } else {
        b
    }
}

/// A NaN has all exponent bits set and a non-zero fraction.
pub open spec fn is_nan(b: u64) -> bool {
    magnitude(b) > POSITIVE_INFINITY
}

/// The position of a non-NaN value on the number line, as an integer.
pub open spec fn order_key(b: u64) -> int {
    if is_negative_bits(b) {
        -(magnitude(b) as int)
    } else {
        magnitude(b) as int
    }
}

/// `a < b` between binary64 values.
pub open spec fn float_lt(a: u64, b: u64) -> bool {
    !is_nan(a) && !is_nan(b) && order_key(a) < order_key(b)
}

/// `a == b` between binary64 values.
pub open spec fn float_eq(a: u64, b: u64) -> bool {
    !is_nan(a) && !is_nan(b) && order_key(a) == order_key(b)
}

fn magnitude_of(b: u64) -> (r: u64)
    ensures
        r == magnitude(b),
{
    if b >= SIGN_BIT {
        b - SIGN_BIT
    } else {
        b
    }
}

/// Whether `b` is the pattern of a NaN.
pub fn nan(b: u64) -> (r: bool)
    ensures
        r == is_nan(b),
{
    magnitude_of(b) > POSITIVE_INFINITY
}

fn key_of(b: u64) -> (r: i128)
    ensures
        r as int == order_key(b),
{
    let m = magnitude_of(b) as i128;
    if b >= SIGN_BIT {
        -m
    } else {
        m
    }
}

/// `a < b` between the binary64 values of the two patterns.
pub fn less_than(a: u64, b: u64) -> (r: bool)
    ensures
        r == float_lt(a, b),
{
    !nan(a) && !nan(b) && key_of(a) < key_of(b)
}

/// `a == b` between the binary64 values of the two patterns.
pub fn equal(a: u64, b: u64) -> (r: bool)
    ensures
        r == float_eq(a, b),
{
    !nan(a) && !nan(b) && key_of(a) == key_of(b)
}

/// Less-than is irreflexive and excludes equality, and equal values are
/// ordered alike.
pub proof fn lemma_order_basics(a: u64, b: u64)
    ensures
        !float_lt(a, a),
        float_lt(a, b) ==> !float_eq(a, b) && !float_lt(b, a),
        float_eq(a, b) <==> float_eq(b, a),
        !is_nan(a) && !is_nan(b) ==> (float_lt(a, b) || float_lt(b, a) || float_eq(a, b)),
{
}

} // verus!
