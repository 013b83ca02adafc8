//! Bit-level view of IEEE-754 binary32 values.
//!
//! A binary32 value is a sign bit, an 8-bit biased exponent and a 23-bit
//! fraction. The spec functions below classify a bit pattern the way the
//! standard does (finite, normal, subnormal, zero) and order the non-NaN
//! patterns by their sign-magnitude key, which is how the standard orders the
//! values they denote.
use vstd::prelude::*;

verus! {

/// The bit pattern of `+0.0`.
pub const ZERO_BITS: u32 = 0x0000_0000;

/// The bit pattern of `-0.0`.
pub const NEG_ZERO_BITS: u32 = 0x8000_0000;

/// The bit pattern of `0.1`.
pub const POINT_ONE_BITS: u32 = 0x3DCC_CCCD;

/// The bit pattern of `1.0`.
pub const ONE_BITS: u32 = 0x3F80_0000;

/// The bit pattern of `10.0`.
pub const TEN_BITS: u32 = 0x4120_0000;

/// The biased exponent field.
pub open spec fn exponent(bits: u32) -> u32 {
    (bits >> 23u32) & 0xFFu32
}

/// The value without its sign bit.
pub open spec fn magnitude(bits: u32) -> u32 {
    bits & 0x7FFF_FFFFu32
}

/// The sign bit is set.
pub open spec fn is_negative(bits: u32) -> bool {
    bits >= 0x8000_0000u32
}

/// Not an infinity and not a NaN.
pub open spec fn is_finite(bits: u32) -> bool {
    exponent(bits) != 0xFFu32
}

/// A NaN: all-ones exponent and a non-zero fraction.
pub open spec fn is_nan(bits: u32) -> bool {
    exponent(bits) == 0xFFu32 && (bits & 0x007F_FFFFu32) != 0
}

/// A normal number: neither zero, subnormal, infinite nor NaN.
pub open spec fn is_normal(bits: u32) -> bool {
    exponent(bits) != 0 && exponent(bits) != 0xFFu32
}

/// `+0.0` or `-0.0`.
pub open spec fn is_zero(bits: u32) -> bool {
    magnitude(bits) == 0
}

/// Ordering key of a non-NaN value: the magnitude, negated when the sign bit
/// is set. Both zeros share the key `0`.
pub open spec fn order_key(bits: u32) -> int {
    if is_negative(bits) {
        -(magnitude(bits) as int)
    } else {
        magnitude(bits) as int
    }
}

/// `a < b` on the values two non-NaN bit patterns denote.
pub open spec fn lt(a: u32, b: u32) -> bool {
    order_key(a) < order_key(b)
}

/// Whether `bits` is finite, decided on the exponent field.
pub fn bits_is_finite(bits: u32) -> (r: bool)
    ensures
        r == is_finite(bits),
{
    ((bits >> 23u32) & 0xFFu32) != 0xFFu32
}

/// Whether `bits` is a normal number, decided on the exponent field.
pub fn bits_is_normal(bits: u32) -> (r: bool)
    ensures
        r == is_normal(bits),
{
    let e = (bits >> 23u32) & 0xFFu32;
    e != 0 && e != 0xFFu32
}

/// Whether `bits` is `+0.0` or `-0.0`.
pub fn bits_is_zero(bits: u32) -> (r: bool)
    ensures
        r == is_zero(bits),
{
    (bits & 0x7FFF_FFFFu32) == 0
}

/// `a < b` on two non-NaN values, decided on their sign-magnitude keys.
pub fn bits_lt(a: u32, b: u32) -> (r: bool)
    requires
        !is_nan(a),
        !is_nan(b),
    ensures
        r == lt(a, b),
{
    let ma = a & 0x7FFF_FFFFu32;
    let mb = b & 0x7FFF_FFFFu32;
    let na = a >= 0x8000_0000u32;
    let nb = b >= 0x8000_0000u32;
    if na && nb {
        mb < ma
    } else if na {
        !(ma == 0 && mb == 0)
    } else if nb {
        false
    } else {
        ma < mb
    }
}

/// `a == b` on the values two bit patterns denote: no NaN equals anything,
/// the two zeros are equal, and otherwise equal values have equal patterns.
pub open spec fn float_eq(a: u32, b: u32) -> bool {
    !is_nan(a) && !is_nan(b) && (a == b || (is_zero(a) && is_zero(b)))
}

/// Value equality of two binary32 bit patterns.
pub fn bits_float_eq(a: u32, b: u32) -> (r: bool)
    ensures
        r == float_eq(a, b),
{
    let a_nan = ((a >> 23u32) & 0xFFu32) == 0xFFu32 && (a & 0x007F_FFFFu32) != 0;
    let b_nan = ((b >> 23u32) & 0xFFu32) == 0xFFu32 && (b & 0x007F_FFFFu32) != 0;
    !a_nan && !b_nan && (a == b || ((a & 0x7FFF_FFFFu32) == 0 && (b & 0x7FFF_FFFFu32) == 0))
}

/// The reference constants used by the configuration rules are finite.
pub proof fn lemma_reference_constants_finite()
    ensures
        is_finite(ZERO_BITS),
        is_finite(POINT_ONE_BITS),
        is_finite(ONE_BITS),
        is_finite(TEN_BITS),
{
    assert(((0x0000_0000u32 >> 23u32) & 0xFFu32) != 0xFFu32) by (bit_vector);
    assert(((0x3DCC_CCCDu32 >> 23u32) & 0xFFu32) != 0xFFu32) by (bit_vector);
    assert(((0x3F80_0000u32 >> 23u32) & 0xFFu32) != 0xFFu32) by (bit_vector);
    assert(((0x4120_0000u32 >> 23u32) & 0xFFu32) != 0xFFu32) by (bit_vector);
}

/// The order on non-NaN values follows sign and magnitude: among
/// non-negative patterns the larger pattern is the larger value, among
/// negative patterns the larger pattern is the smaller value, every negative
/// value lies below every non-negative one except that `-0.0` equals `+0.0`.
pub proof fn law_order_follows_sign_and_magnitude(a: u32, b: u32)
    ensures
        a < 0x8000_0000u32 && b < 0x8000_0000u32 ==> (lt(a, b) <==> a < b),
        a >= 0x8000_0000u32 && b >= 0x8000_0000u32 ==> (lt(a, b) <==> b < a),
        a >= 0x8000_0000u32 && b < 0x8000_0000u32 ==> (lt(a, b) <==> !(a == 0x8000_0000u32 && b
            == 0)),
        a < 0x8000_0000u32 && b >= 0x8000_0000u32 ==> !lt(a, b),
{
    assert(a < 0x8000_0000u32 ==> a & 0x7FFF_FFFFu32 == a) by (bit_vector);
    assert(b < 0x8000_0000u32 ==> b & 0x7FFF_FFFFu32 == b) by (bit_vector);
    assert(a >= 0x8000_0000u32 ==> a & 0x7FFF_FFFFu32 == a - 0x8000_0000u32) by (bit_vector);
    assert(b >= 0x8000_0000u32 ==> b & 0x7FFF_FFFFu32 == b - 0x8000_0000u32) by (bit_vector);
}

/// Two non-NaN values are equal exactly when neither lies below the other.
pub proof fn law_equality_is_mutual_non_order(a: u32, b: u32)
    requires
        !is_nan(a),
        !is_nan(b),
    ensures
        float_eq(a, b) <==> !lt(a, b) && !lt(b, a),
{
    assert(a & 0x7FFF_FFFFu32 == b & 0x7FFF_FFFFu32 && (a >= 0x8000_0000u32) == (b
        >= 0x8000_0000u32) ==> a == b) by (bit_vector);
}

} // verus!
