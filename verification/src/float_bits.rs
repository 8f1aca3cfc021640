//! IEEE 754 single-precision scalars, carried as raw bit patterns.
//!
//! Every scalar that the observed process stores as a 32-bit float is held
//! as its bit pattern (`u32`).  Structural work (moving components around,
//! comparing against exact constants, testing for the zero sentinel, ordering
//! finite values) is done directly on the bits and fully verified.  The
//! rounded arithmetic itself is delegated to a software implementation of the
//! standard through thin trusted wrappers; the result of each rounded
//! operation is given a name (an uninterpreted spec function), which lets
//! callers state their own results exactly in terms of those names.

use rustc_apfloat::Float;
use rustc_apfloat::ieee::Single;
use vstd::prelude::*;

verus! {

/// Bits of `0.0`.
pub const F_ZERO: u32 = 0x0000_0000;

/// Bits of `0.1`, the near-plane threshold of the projector.
pub const F_TENTH: u32 = 0x3DCC_CCCD;

/// Bits of `0.5`.
pub const F_HALF: u32 = 0x3F00_0000;

/// Bits of `1.0`.
pub const F_ONE: u32 = 0x3F80_0000;

/// Bits of `2.0`.
pub const F_TWO: u32 = 0x4000_0000;

/// Bits of `-2.0`.
pub const F_NEG_TWO: u32 = 0xC000_0000;

/// Bits of the 32-bit rounding of pi.
pub const F_PI: u32 = 0x4049_0FDB;

/// Bits of `180.0`.
pub const F_DEG_180: u32 = 0x4334_0000;

/// Bits of `360.0`.
pub const F_DEG_360: u32 = 0x43B4_0000;

/// The magnitude bits: everything below the sign bit.
pub const F_MAGNITUDE_MASK: u32 = 0x7FFF_FFFF;

/// The exponent bits.
pub const F_EXPONENT_MASK: u32 = 0x7F80_0000;

/// The fraction bits.
pub const F_FRACTION_MASK: u32 = 0x007F_FFFF;

/// A pattern is a NaN when its exponent is saturated and its fraction is not
/// zero.
pub open spec fn is_nan_bits(a: u32) -> bool {
    a & F_EXPONENT_MASK == F_EXPONENT_MASK && a & F_FRACTION_MASK != 0
}

/// A float compares equal to `0.0` exactly when its magnitude bits are all
/// zero; the two signed zeros both do.
pub open spec fn is_zero_bits(a: u32) -> bool {
    a & F_MAGNITUDE_MASK == 0
}

/// A float's place in the numeric order, as an integer: the magnitude bits,
/// negated when the sign bit is set.  Both signed zeros map to 0.  Two
/// non-NaN patterns compare (`<`, `==`) exactly as these keys do, because the
/// encoding stores floats in sign-magnitude order.
pub open spec fn order_key_bits(a: u32) -> int {
    if a & 0x8000_0000u32 == 0 {
        (a & F_MAGNITUDE_MASK) as int
    } else {
        -((a & F_MAGNITUDE_MASK) as int)
    }
}

/// The standard's `<` on two patterns: false when either is NaN, otherwise
/// the order of the encoded values.
pub open spec fn lt_bits(a: u32, b: u32) -> bool {
    &&& !is_nan_bits(a)
    &&& !is_nan_bits(b)
    &&& order_key_bits(a) < order_key_bits(b)
}

/// Compares two patterns as the standard's `<` does, without a float unit.
pub fn f32_lt(a: u32, b: u32) -> (r: bool)
    ensures
        r == lt_bits(a, b),
{
    let nan_a = a & F_EXPONENT_MASK == F_EXPONENT_MASK && a & F_FRACTION_MASK != 0;
    let nan_b = b & F_EXPONENT_MASK == F_EXPONENT_MASK && b & F_FRACTION_MASK != 0;
    if nan_a || nan_b {
        return false;
    }
    let mag_a: i64 = (a & F_MAGNITUDE_MASK) as i64;
    let mag_b: i64 = (b & F_MAGNITUDE_MASK) as i64;
    let key_a: i64 = if a & 0x8000_0000u32 == 0 { mag_a } else { -mag_a };
    let key_b: i64 = if b & 0x8000_0000u32 == 0 { mag_b } else { -mag_b };
    proof {
        assert(a & F_MAGNITUDE_MASK < 0x8000_0000u32) by (bit_vector);
        assert(b & F_MAGNITUDE_MASK < 0x8000_0000u32) by (bit_vector);
    }
    key_a < key_b
}

/// What `a + b` returns on 32-bit floats with the given bit patterns,
/// rounding to nearest, ties to even.  The operation is deterministic, so
/// this is a function of the bits alone.
pub uninterp spec fn add_bits(a: u32, b: u32) -> u32;

/// What `a - b` returns, rounding to nearest, ties to even.
pub uninterp spec fn sub_bits(a: u32, b: u32) -> u32;

/// What `a * b` returns, rounding to nearest, ties to even.
pub uninterp spec fn mul_bits(a: u32, b: u32) -> u32;

/// What `a / b` returns, rounding to nearest, ties to even.
pub uninterp spec fn div_bits(a: u32, b: u32) -> u32;

/// What the square root of `a` returns, rounding to nearest, ties to even.
pub uninterp spec fn sqrt_bits(a: u32) -> u32;

/// What the cosine of `a` returns, as the `libm` crate computes it.  The
/// computation is pure code, so this is a function of the bits alone.
pub uninterp spec fn cos_bits(a: u32) -> u32;

/// What the sine of `a` returns, as the `libm` crate computes it.  The
/// computation is pure code, so this is a function of the bits alone.
pub uninterp spec fn sin_bits(a: u32) -> u32;

/// Relies on `rustc_apfloat::ieee::Single`'s addition: one rounded addition
/// of the standard, computed in software.
#[verifier::external_body]
pub fn f32_add(a: u32, b: u32) -> (r: u32)
    ensures
        r == add_bits(a, b),
{
    let x = Single::from_bits(a as u128);
    let y = Single::from_bits(b as u128);
    (x + y).value.to_bits() as u32
}

/// Relies on `rustc_apfloat::ieee::Single`'s subtraction: one rounded
/// subtraction of the standard, computed in software.
#[verifier::external_body]
pub fn f32_sub(a: u32, b: u32) -> (r: u32)
    ensures
        r == sub_bits(a, b),
{
    let x = Single::from_bits(a as u128);
    let y = Single::from_bits(b as u128);
    (x - y).value.to_bits() as u32
}

/// Relies on `rustc_apfloat::ieee::Single`'s multiplication: one rounded
/// multiplication of the standard, computed in software.
#[verifier::external_body]
pub fn f32_mul(a: u32, b: u32) -> (r: u32)
    ensures
        r == mul_bits(a, b),
{
    let x = Single::from_bits(a as u128);
    let y = Single::from_bits(b as u128);
    (x * y).value.to_bits() as u32
}

/// Relies on `rustc_apfloat::ieee::Single`'s division: one rounded division
/// of the standard, computed in software.
#[verifier::external_body]
pub fn f32_div(a: u32, b: u32) -> (r: u32)
    ensures
        r == div_bits(a, b),
{
    let x = Single::from_bits(a as u128);
    let y = Single::from_bits(b as u128);
    (x / y).value.to_bits() as u32
}

/// Relies on `libm::sqrtf`: the rounded square root of the standard,
/// computed in pure code.
#[verifier::external_body]
pub fn f32_sqrt(a: u32) -> (r: u32)
    ensures
        r == sqrt_bits(a),
{
    bytemuck::cast(libm::sqrtf(bytemuck::cast(a)))
}

/// Relies on `libm::cosf`: the cosine, computed in pure code.
#[verifier::external_body]
pub fn f32_cos(a: u32) -> (r: u32)
    ensures
        r == cos_bits(a),
{
    bytemuck::cast(libm::cosf(bytemuck::cast(a)))
}

/// Relies on `libm::sinf`: the sine, computed in pure code.
#[verifier::external_body]
pub fn f32_sin(a: u32) -> (r: u32)
    ensures
        r == sin_bits(a),
{
    bytemuck::cast(libm::sinf(bytemuck::cast(a)))
}

} // verus!
