//! Sign and NaN classification of IEEE-754 binary64 values, on the raw
//! 64-bit patterns.  A pattern has one sign bit, an 11-bit exponent and a
//! 52-bit fraction; a value is NaN when the exponent is all ones and the
//! fraction is not zero, and every comparison with a NaN is false.

use vstd::prelude::*;

verus! {

/// The sign bit of the pattern: 1 for negative values, negative zero and
/// negative NaNs.
pub open spec fn sign_bit(b: u64) -> u64 {
    b >> 63
}

/// The 11 exponent bits of the pattern.
pub open spec fn exponent_bits(b: u64) -> u64 {
    (b >> 52) & 0x7ff
}

/// The 52 fraction bits of the pattern.
pub open spec fn fraction_bits(b: u64) -> u64 {
    b & 0xf_ffff_ffff_ffff
}

/// The pattern of negative zero: only the sign bit set.
pub open spec fn negative_zero() -> u64 {
    0x8000_0000_0000_0000u64
}

/// Whether the pattern encodes a NaN.
pub open spec fn is_nan(b: u64) -> bool {
    exponent_bits(b) == 0x7ff && fraction_bits(b) != 0
}

/// Whether the encoded value compares strictly greater than zero.  That
/// holds exactly of the patterns with a clear sign bit that are neither a
/// zero nor a NaN; positive infinity is included.
pub open spec fn gt_zero(b: u64) -> bool {
    sign_bit(b) == 0 && b != 0 && !is_nan(b)
}

/// Whether the encoded value compares strictly less than zero.  That holds
/// exactly of the patterns with a set sign bit that are neither negative
/// zero nor a NaN; negative infinity is included.
pub open spec fn lt_zero(b: u64) -> bool {
    sign_bit(b) == 1 && b != negative_zero() && !is_nan(b)
}

/// Decides `gt_zero` on a bit pattern.
pub fn bits_gt_zero(b: u64) -> (r: bool)
    ensures
        r == gt_zero(b),
{
    (b >> 63) == 0 && b != 0 && !bits_is_nan(b)
}

/// Decides `lt_zero` on a bit pattern.
pub fn bits_lt_zero(b: u64) -> (r: bool)
    ensures
        r == lt_zero(b),
{
    (b >> 63) == 1 && b != 0x8000_0000_0000_0000u64 && !bits_is_nan(b)
}

/// Decides `is_nan` on a bit pattern.
pub fn bits_is_nan(b: u64) -> (r: bool)
    ensures
        r == is_nan(b),
{
    ((b >> 52) & 0x7ff) == 0x7ff && (b & 0xf_ffff_ffff_ffff) != 0
}

} // verus!
