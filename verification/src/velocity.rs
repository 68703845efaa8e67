//! Velocities as IEEE 754 binary64 bit patterns.
//!
//! The simulation core never performs numeric arithmetic itself: the
//! numeric front end hands every velocity in as the raw bit pattern of its
//! binary64 encoding, and the core draws all of its decisions (wall bounce,
//! termination) from those patterns. The sign test, the ordering and the
//! negation used here are exact bit-level equivalents of the numeric
//! operations on encoded values, so the core behaves bit-for-bit
//! deterministically.

use vstd::prelude::*;

verus! {

/// Mask of the sign bit of a binary64 encoding.
pub const SIGN_MASK: u64 = 0x8000_0000_0000_0000;

/// Mask of the exponent and fraction bits (everything but the sign).
pub const MAGNITUDE_MASK: u64 = 0x7FFF_FFFF_FFFF_FFFF;

/// Magnitude of an infinity; any larger magnitude encodes a NaN.
pub const INFINITY_MAGNITUDE: u64 = 0x7FF0_0000_0000_0000;

/// The sign bit of the encoding `b`: set exactly on negative values,
/// the negative zero and negative NaNs included.
pub open spec fn spec_sign_bit(b: u64) -> bool {
    b & SIGN_MASK != 0
}

/// The magnitude bits of the encoding `b` (sign cleared).
pub open spec fn spec_magnitude(b: u64) -> u64 {
    b & MAGNITUDE_MASK
}

/// `b` encodes a NaN: magnitude beyond the infinity magnitude.
pub open spec fn spec_is_nan(b: u64) -> bool {
    spec_magnitude(b) > INFINITY_MAGNITUDE
}

/// `b` encodes a zero (of either sign).
pub open spec fn spec_is_zero(b: u64) -> bool {
    spec_magnitude(b) == 0
}

/// The encoded value compares `<= 0`: not a NaN, and either a zero or
/// negative.
pub open spec fn spec_le_zero(b: u64) -> bool {
    !spec_is_nan(b) && (spec_sign_bit(b) || spec_is_zero(b))
}

/// Strict `<` on encoded values, exactly as binary64 ordering defines it:
/// false whenever either operand is a NaN, the two zeros compare equal,
/// values of different sign order by sign, and values of one sign order by
/// magnitude (the encoding is monotone in magnitude within a sign, for
/// subnormal, normal and infinite values alike).
pub open spec fn spec_lt(a: u64, b: u64) -> bool {
    if spec_is_nan(a) || spec_is_nan(b) {
        false
    } else if spec_is_zero(a) && spec_is_zero(b) {
        false
    } else if spec_sign_bit(a) != spec_sign_bit(b) {
        spec_sign_bit(a)
    } else if spec_sign_bit(a) {
        spec_magnitude(a) > spec_magnitude(b)
    } else {
        spec_magnitude(a) < spec_magnitude(b)
    }
}

/// Negation of the encoded value: binary64 negation flips the sign bit and
/// nothing else.
pub open spec fn spec_flip_sign(b: u64) -> u64 {
    b ^ SIGN_MASK
}

/// The encoded value compares `<= 0`.
#[verifier::when_used_as_spec(spec_le_zero)]
pub fn le_zero(b: u64) -> (r: bool)
    ensures
        r == spec_le_zero(b),
{
    let magnitude = b & MAGNITUDE_MASK;
    magnitude <= INFINITY_MAGNITUDE && (b & SIGN_MASK != 0 || magnitude == 0)
}

/// The encoded value of `a` compares strictly below that of `b`.
#[verifier::when_used_as_spec(spec_lt)]
pub fn lt(a: u64, b: u64) -> (r: bool)
    ensures
        r == spec_lt(a, b),
{
    let magnitude_a = a & MAGNITUDE_MASK;
    let magnitude_b = b & MAGNITUDE_MASK;
    if magnitude_a > INFINITY_MAGNITUDE || magnitude_b > INFINITY_MAGNITUDE {
        false
    } else if magnitude_a == 0 && magnitude_b == 0 {
        false
    } else if (a & SIGN_MASK != 0) != (b & SIGN_MASK != 0) {
        a & SIGN_MASK != 0
    } else if a & SIGN_MASK != 0 {
        magnitude_a > magnitude_b
    } else {
        magnitude_a < magnitude_b
    }
}

/// The encoding of the negated value.
#[verifier::when_used_as_spec(spec_flip_sign)]
pub fn flip_sign(b: u64) -> (r: u64)
    ensures
        r == spec_flip_sign(b),
{
    b ^ SIGN_MASK
}

} // verus!
