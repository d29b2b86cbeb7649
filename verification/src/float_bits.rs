//! Comparison of single-precision numbers that are held as bit patterns.

use vstd::prelude::*;

verus! {

/// Whether the bit pattern is that of a NaN: all exponent bits set and a
/// mantissa that is not zero.
pub open spec fn is_nan(bits: u32) -> bool {
    bits & 0x7FFF_FFFF > 0x7F80_0000
}

/// Whether the numbers behind two bit patterns compare equal: neither is a
/// NaN, and the patterns are the same or are the two zeros.
pub open spec fn float_eq(a: u32, b: u32) -> bool {
    !is_nan(a) && !is_nan(b) && (a == b || (a | b) & 0x7FFF_FFFF == 0)
}

/// Whether two colors compare equal, channel by channel.
pub open spec fn color_eq(a: [u32; 4], b: [u32; 4]) -> bool {
    float_eq(a[0], b[0]) && float_eq(a[1], b[1]) && float_eq(a[2], b[2]) && float_eq(a[3], b[3])
}

/// Whether the numbers behind two bit patterns compare equal.
pub fn same_float(a: u32, b: u32) -> (r: bool)
    ensures
        r == float_eq(a, b),
{
    !(a & 0x7FFF_FFFF > 0x7F80_0000) && !(b & 0x7FFF_FFFF > 0x7F80_0000) && (a == b || (a | b)
        & 0x7FFF_FFFF == 0)
}

/// Whether two colors compare equal, channel by channel.
pub fn same_color(a: &[u32; 4], b: &[u32; 4]) -> (r: bool)
    ensures
        r == color_eq(*a, *b),
{
    same_float(a[0], b[0]) && same_float(a[1], b[1]) && same_float(a[2], b[2]) && same_float(
        a[3],
        b[3],
    )
}

/// A pattern that is no NaN compares equal to itself.
pub proof fn float_eq_reflexive(a: u32)
    ensures
        float_eq(a, a) == !is_nan(a),
{
}

/// Comparison does not depend on the order of its arguments.
pub proof fn float_eq_symmetric(a: u32, b: u32)
    ensures
        float_eq(a, b) == float_eq(b, a),
{
    assert((a | b) == (b | a)) by (bit_vector);
}

} // verus!
