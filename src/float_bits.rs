//! Single-precision floating-point settings, held by their IEEE-754 bit
//! patterns so that their ranges can be checked without floating point.

use vstd::prelude::*;

verus! {

/// The pattern of `0.0`.
pub const ZERO_BITS: u32 = 0x0000_0000;

/// The pattern of `0.5`.
pub const HALF_BITS: u32 = 0x3F00_0000;

/// The pattern of `1.0`.
pub const ONE_BITS: u32 = 0x3F80_0000;

/// The pattern of `5.0`.
pub const FIVE_BITS: u32 = 0x40A0_0000;

/// The sign bit.
pub open spec fn sign(b: u32) -> int {
    b as int / 0x8000_0000
}

/// The biased exponent field.
pub open spec fn exponent(b: u32) -> int {
    (b as int / 0x80_0000) % 0x100
}

/// The fraction field.
pub open spec fn fraction(b: u32) -> int {
    b as int % 0x80_0000
}

/// Exponent and fraction together; for two values of one sign their order is
/// the order of the magnitudes.
pub open spec fn magnitude(b: u32) -> int {
    b as int % 0x8000_0000
}

/// The pattern is a NaN.
pub open spec fn is_nan(b: u32) -> bool {
    exponent(b) == 0xFF && fraction(b) != 0
}

/// The pattern is one of the two zeros.
pub open spec fn is_zero(b: u32) -> bool {
    magnitude(b) == 0
}

/// `a <= b` on two values that are not NaN, as IEEE-754 orders them (the two
/// zeros are equal).
pub open spec fn value_le(a: u32, b: u32) -> bool {
    if is_zero(a) && is_zero(b) {
        true
    } else if sign(a) == 0 && sign(b) == 0 {
        magnitude(a) <= magnitude(b)
    } else if sign(a) == 1 && sign(b) == 1 {
        magnitude(b) <= magnitude(a)
    } else {
        sign(a) == 1
    }
}

/// Whether the value with pattern `x` lies in the closed range from `lo` to
/// `hi`. A NaN lies in no range.
pub open spec fn in_closed_range(x: u32, lo: u32, hi: u32) -> bool {
    !is_nan(x) && value_le(lo, x) && value_le(x, hi)
}

fn le_bits(a: u32, b: u32) -> (r: bool)
    ensures
        r == value_le(a, b),
{
    let (sa, sb) = (a / 0x8000_0000, b / 0x8000_0000);
    let (ma, mb) = (a % 0x8000_0000, b % 0x8000_0000);
    if ma == 0 && mb == 0 {
        true
    } else if sa == 0 && sb == 0 {
        ma <= mb
    } else if sa == 1 && sb == 1 {
        mb <= ma
    } else {
        sa == 1
    }
}

/// Checks that the value with pattern `x` is not NaN and lies between the
/// values with patterns `lo` and `hi`, both ends included.
pub fn within(x: u32, lo: u32, hi: u32) -> (r: bool)
    ensures
        r == in_closed_range(x, lo, hi),
{
    let nan = (x / 0x80_0000) % 0x100 == 0xFF && x % 0x80_0000 != 0;
    !nan && le_bits(lo, x) && le_bits(x, hi)
}

} // verus!
