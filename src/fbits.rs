//! IEEE-754 binary32 values carried as their bit patterns.
//!
//! The pipeline's activations, confidences and frequencies are single
//! precision floats. The library never does arithmetic on them; it only
//! orders and compares them, which is fully determined by the bit pattern.
use vstd::prelude::*;

verus! {

/// A binary32 value, as the 32 bits of its IEEE-754 encoding.
pub type FloatBits = u32;

/// Bit pattern of the quiet NaN that stands for "no pitch".
pub const NAN_BITS: FloatBits = 0x7fc0_0000;

pub const SIGN_MASK: u32 = 0x8000_0000;

pub const EXPONENT_MASK: u32 = 0x7f80_0000;

pub const MANTISSA_MASK: u32 = 0x007f_ffff;

pub const MAGNITUDE_MASK: u32 = 0x7fff_ffff;

/// The value is a NaN: all exponent bits set and a nonzero mantissa.
pub open spec fn is_nan(b: FloatBits) -> bool {
    (b & EXPONENT_MASK) == EXPONENT_MASK && (b & MANTISSA_MASK) != 0
}

/// The value is +0.0 or -0.0.
pub open spec fn is_zero(b: FloatBits) -> bool {
    (b & MAGNITUDE_MASK) == 0
}

/// Position of the value in the total order of `f32::total_cmp`:
/// non-negative patterns keep their order, negative ones are reversed below them.
pub open spec fn order_key(b: FloatBits) -> int {
    if b < SIGN_MASK {
        b as int
    } else {
        MAGNITUDE_MASK as int - b as int
    }
}

/// `a <= b` as IEEE-754 compares: false whenever either side is NaN, and
/// the two zeros are equal.
pub open spec fn float_le(a: FloatBits, b: FloatBits) -> bool {
    &&& !is_nan(a)
    &&& !is_nan(b)
    &&& (is_zero(a) && is_zero(b)) || order_key(a) <= order_key(b)
}

/// Exec form of `is_nan`.
pub fn nan(b: FloatBits) -> (r: bool)
    ensures
        r == is_nan(b),
{
    (b & EXPONENT_MASK) == EXPONENT_MASK && (b & MANTISSA_MASK) != 0
}

/// Exec form of `order_key`, as used by `f32::total_cmp`.
pub fn total_order_key(b: FloatBits) -> (r: i64)
    ensures
        r == order_key(b),
{
    if b < SIGN_MASK {
        b as i64
    } else {
        MAGNITUDE_MASK as i64 - b as i64
    }
}

/// `a <= b` under IEEE-754 comparison.
pub fn le(a: FloatBits, b: FloatBits) -> (r: bool)
    ensures
        r == float_le(a, b),
{
    if nan(a) || nan(b) {
        false
    } else if (a & MAGNITUDE_MASK) == 0 && (b & MAGNITUDE_MASK) == 0 {
        true
    } else {
        total_order_key(a) <= total_order_key(b)
    }
}

} // verus!
