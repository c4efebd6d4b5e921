use vstd::prelude::*;

verus! {

/// Bit that carries the sign of an IEEE-754 binary64 value.
pub const SIGN_BIT: u64 = 0x8000_0000_0000_0000;

/// Bits that carry the exponent and mantissa of an IEEE-754 binary64 value.
pub const MAGNITUDE_MASK: u64 = 0x7fff_ffff_ffff_ffff;

/// The signed magnitude that a binary64 bit pattern stands for. For every
/// non-NaN value, comparing these integers orders values exactly as the
/// floating-point comparison does, and `+0.0` and `-0.0` both map to zero.
pub open spec fn bits_ordinal(bits: u64) -> int {
    let mag = (bits & MAGNITUDE_MASK) as int;
    if bits & SIGN_BIT != 0 {
        -mag
    } else {
        mag
    }
}

/// Maps the bit pattern of a binary64 value to its order-preserving integer.
pub fn ordinal_of_bits(bits: u64) -> (r: i64)
    ensures
        r as int == bits_ordinal(bits),
{
    let mag: u64 = bits & MAGNITUDE_MASK;
    assert(mag <= MAGNITUDE_MASK) by (bit_vector)
        requires mag == bits & MAGNITUDE_MASK;
    if bits & SIGN_BIT != 0 {
        -(mag as i64)
    } else {
        mag as i64
    }
}

/// Exponent bits all set: an infinity or a NaN.
pub const EXPONENT_MASK: u64 = 0x7ff0_0000_0000_0000;

/// The bit pattern is a NaN: its magnitude lies above that of infinity. A
/// NaN's ordinal exceeds every other ordinal of its sign, whereas no
/// floating-point comparison with a NaN holds, so callers test for it first.
pub open spec fn bits_are_nan(bits: u64) -> bool {
    (bits & MAGNITUDE_MASK) > EXPONENT_MASK
}

/// Tells whether the bit pattern of a binary64 value is a NaN.
pub fn is_nan_bits(bits: u64) -> (r: bool)
    ensures
        r == bits_are_nan(bits),
{
    (bits & MAGNITUDE_MASK) > EXPONENT_MASK
}

} // verus!
