//! IEEE 754 double-precision values, represented by their 64-bit patterns.
//!
//! The domain model stores every numeric field (bounds, coefficients,
//! objective values) as the bit pattern of a double.  This module defines
//! the order and the sign structure of those patterns: for patterns that
//! do not encode a NaN, `lt`/`le`/`gt` agree with the comparison of the
//! encoded values (the two zero patterns compare equal), and any
//! comparison involving a NaN pattern is false.  `negate` flips the sign
//! bit, which is exactly the negation of the encoded value.

use vstd::prelude::*;

verus! {

/// Mask of the sign bit.
pub const SIGN_MASK: u64 = 0x8000_0000_0000_0000;

/// Mask of the eleven exponent bits.
pub const EXP_MASK: u64 = 0x7FF0_0000_0000_0000;

/// Mask of the fraction bits.
pub const FRAC_MASK: u64 = 0x000F_FFFF_FFFF_FFFF;

/// Mask of everything but the sign bit.
pub const MAG_MASK: u64 = 0x7FFF_FFFF_FFFF_FFFF;

/// Bit pattern of positive zero.
pub const ZERO_BITS: u64 = 0;

/// Bit pattern of negative zero.
pub const NEG_ZERO_BITS: u64 = 0x8000_0000_0000_0000;

/// Bit pattern of one.
pub const ONE_BITS: u64 = 0x3FF0_0000_0000_0000;

/// Whether the pattern encodes a NaN: all exponent bits set and a
/// non-zero fraction.
pub open spec fn spec_is_nan(b: u64) -> bool {
    b & EXP_MASK == EXP_MASK && b & FRAC_MASK != 0
}

/// Whether the sign bit is set.
pub open spec fn spec_is_sign_negative(b: u64) -> bool {
    b & SIGN_MASK != 0
}

/// Position of the encoded value on the real line, as an integer key:
/// patterns of greater values get greater keys, and the two zero
/// patterns get the same key.  Meaningful only for non-NaN patterns.
pub open spec fn spec_key(b: u64) -> int {
    if spec_is_sign_negative(b) {
        -((b & MAG_MASK) as int)
    } else {
        (b & MAG_MASK) as int
    }
}

/// The encoded value of `a` is greater than that of `b`; false when
/// either pattern is a NaN.
pub open spec fn spec_gt(a: u64, b: u64) -> bool {
    !spec_is_nan(a) && !spec_is_nan(b) && spec_key(a) > spec_key(b)
}

/// The encoded value of `a` is less than or equal to that of `b`; false
/// when either pattern is a NaN.
pub open spec fn spec_le(a: u64, b: u64) -> bool {
    !spec_is_nan(a) && !spec_is_nan(b) && spec_key(a) <= spec_key(b)
}

/// Whether the pattern encodes zero (of either sign).
pub open spec fn spec_is_zero(b: u64) -> bool {
    b == ZERO_BITS || b == NEG_ZERO_BITS
}

/// Whether the encoded value is strictly positive (so neither a NaN nor
/// a zero nor sign-negative).
pub open spec fn spec_is_positive(b: u64) -> bool {
    spec_gt(b, ZERO_BITS)
}

/// The pattern of the negated value: the sign bit flipped.
pub open spec fn spec_negate(b: u64) -> u64 {
    b ^ SIGN_MASK
}

/// Whether the pattern encodes a NaN.
pub fn is_nan(b: u64) -> (r: bool)
    ensures
        r == spec_is_nan(b),
{
    b & EXP_MASK == EXP_MASK && b & FRAC_MASK != 0
}

/// Whether the encoded value of `a` is greater than that of `b`;
/// false when either pattern is a NaN.
pub fn gt(a: u64, b: u64) -> (r: bool)
    ensures
        r == spec_gt(a, b),
{
    if is_nan(a) || is_nan(b) {
        false
    } else {
        let neg_a = a & SIGN_MASK != 0;
        let neg_b = b & SIGN_MASK != 0;
        let mag_a = a & MAG_MASK;
        let mag_b = b & MAG_MASK;
        if neg_a && neg_b {
            mag_b > mag_a
        } else if !neg_a && !neg_b {
            mag_a > mag_b
        } else if neg_a {
            false
        } else {
            mag_a > 0 || mag_b > 0
        }
    }
}

/// Whether the encoded value of `a` is less than or equal to that of
/// `b`; false when either pattern is a NaN.
pub fn le(a: u64, b: u64) -> (r: bool)
    ensures
        r == spec_le(a, b),
{
    if is_nan(a) || is_nan(b) {
        false
    } else {
        let neg_a = a & SIGN_MASK != 0;
        let neg_b = b & SIGN_MASK != 0;
        let mag_a = a & MAG_MASK;
        let mag_b = b & MAG_MASK;
        if neg_a && neg_b {
            mag_b <= mag_a
        } else if !neg_a && !neg_b {
            mag_a <= mag_b
        } else if neg_a {
            true
        } else {
            mag_a == 0 && mag_b == 0
        }
    }
}

/// Whether the pattern encodes zero (of either sign).
pub fn is_zero(b: u64) -> (r: bool)
    ensures
        r == spec_is_zero(b),
{
    b == ZERO_BITS || b == NEG_ZERO_BITS
}

/// Whether the encoded value is strictly positive.
pub fn is_positive(b: u64) -> (r: bool)
    ensures
        r == spec_is_positive(b),
{
    gt(b, ZERO_BITS)
}

/// The pattern of the negated value.
pub fn negate(b: u64) -> (r: u64)
    ensures
        r == spec_negate(b),
{
    b ^ SIGN_MASK
}

} // verus!
