//! The numeric domain of the worker: IEEE 754 binary64 values, carried as
//! their 64-bit bit patterns.
//!
//! The library never holds a floating-point value directly; every number is
//! an opaque `u64` bit pattern, and each arithmetic step is performed in
//! software by `rustc_apfloat` (and `ieee_apsqrt` for the square root), both
//! of which implement IEEE 754 binary64 arithmetic with round-to-nearest,
//! ties-to-even — the same rounding the hardware operations use. Each
//! operation's result is a function of the operand bit patterns alone, so it
//! is named by an uninterpreted spec function that the trusted wrappers
//! below apply.
use rustc_apfloat::Float;
use vstd::prelude::*;

verus! {

/// Bit pattern of binary64 `0.0`.
pub const F64_ZERO_BITS: u64 = 0x0000_0000_0000_0000;

/// Bit pattern of binary64 `1.0`.
pub const F64_ONE_BITS: u64 = 0x3FF0_0000_0000_0000;

/// Bit pattern of binary64 `2.0`.
pub const F64_TWO_BITS: u64 = 0x4000_0000_0000_0000;

/// Bit pattern of binary64 positive infinity.
pub const F64_POS_INF_BITS: u64 = 0x7FF0_0000_0000_0000;

/// Bit pattern of binary64 negative infinity.
pub const F64_NEG_INF_BITS: u64 = 0xFFF0_0000_0000_0000;

/// The bit pattern of the binary64 sum of the values with bit patterns `a`
/// and `b`, rounded to nearest, ties to even.
pub uninterp spec fn add_bits(a: u64, b: u64) -> u64;

/// The bit pattern of the binary64 product of the values with bit patterns
/// `a` and `b`, rounded to nearest, ties to even.
pub uninterp spec fn mul_bits(a: u64, b: u64) -> u64;

/// The bit pattern of the binary64 quotient of the values with bit patterns
/// `a` and `b`, rounded to nearest, ties to even.
pub uninterp spec fn div_bits(a: u64, b: u64) -> u64;

/// The bit pattern of the correctly rounded binary64 square root of the
/// value with bit pattern `a`.
pub uninterp spec fn sqrt_bits(a: u64) -> u64;

/// True when the binary64 value with bit pattern `a` compares strictly less
/// than the one with bit pattern `b` (false whenever either is a NaN).
pub uninterp spec fn lt_bits(a: u64, b: u64) -> bool;

/// The bit pattern of the binary64 value nearest to the unsigned integer
/// `n`, ties to even.
pub uninterp spec fn from_u64_bits(n: u64) -> u64;

/// The value with bit pattern `a`, rounded toward negative infinity and then
/// converted to `u64` saturating at the ends of the range, with NaN taken
/// to 0.
pub uninterp spec fn floor_to_u64(a: u64) -> u64;

/// Relies on `rustc_apfloat::Float::add_r` on `ieee::Double`: IEEE 754
/// binary64 addition of the two bit patterns, round to nearest, ties to
/// even.
#[verifier::external_body]
pub(crate) fn f64_add(a: u64, b: u64) -> (r: u64)
    ensures
        r == add_bits(a, b),
{
    let x = rustc_apfloat::ieee::Double::from_bits(a as u128);
    let y = rustc_apfloat::ieee::Double::from_bits(b as u128);
    x.add_r(y, rustc_apfloat::Round::NearestTiesToEven).value.to_bits() as u64
}

/// Relies on `rustc_apfloat::Float::mul_r` on `ieee::Double`: IEEE 754
/// binary64 multiplication of the two bit patterns, round to nearest, ties
/// to even.
#[verifier::external_body]
pub(crate) fn f64_mul(a: u64, b: u64) -> (r: u64)
    ensures
        r == mul_bits(a, b),
{
    let x = rustc_apfloat::ieee::Double::from_bits(a as u128);
    let y = rustc_apfloat::ieee::Double::from_bits(b as u128);
    x.mul_r(y, rustc_apfloat::Round::NearestTiesToEven).value.to_bits() as u64
}

/// Relies on `rustc_apfloat::Float::div_r` on `ieee::Double`: IEEE 754
/// binary64 division of the two bit patterns, round to nearest, ties to
/// even.
#[verifier::external_body]
pub(crate) fn f64_div(a: u64, b: u64) -> (r: u64)
    ensures
        r == div_bits(a, b),
{
    let x = rustc_apfloat::ieee::Double::from_bits(a as u128);
    let y = rustc_apfloat::ieee::Double::from_bits(b as u128);
    x.div_r(y, rustc_apfloat::Round::NearestTiesToEven).value.to_bits() as u64
}

/// Relies on `ieee_apsqrt::sqrt_accurate` over `u64` bit patterns: the
/// correctly rounded IEEE 754 binary64 square root (NaN for negative
/// input).
#[verifier::external_body]
pub(crate) fn f64_sqrt(a: u64) -> (r: u64)
    ensures
        r == sqrt_bits(a),
{
    ieee_apsqrt::sqrt_accurate(a, rustc_apfloat::Round::NearestTiesToEven).0.value
}

/// Relies on the `PartialOrd` impl of `rustc_apfloat::ieee::Double`: the
/// IEEE 754 ordered less-than predicate on the two bit patterns, which is
/// false whenever either operand is a NaN.
#[verifier::external_body]
pub(crate) fn f64_lt(a: u64, b: u64) -> (r: bool)
    ensures
        r == lt_bits(a, b),
{
    let x = rustc_apfloat::ieee::Double::from_bits(a as u128);
    let y = rustc_apfloat::ieee::Double::from_bits(b as u128);
    x < y
}

/// Relies on `rustc_apfloat::Float::from_u128_r` on `ieee::Double`: the
/// unsigned integer converted to the nearest binary64 value, ties to even.
#[verifier::external_body]
pub(crate) fn f64_from_u64(n: u64) -> (r: u64)
    ensures
        r == from_u64_bits(n),
{
    rustc_apfloat::ieee::Double::from_u128_r(n as u128, rustc_apfloat::Round::NearestTiesToEven)
        .value
        .to_bits() as u64
}

/// Relies on `rustc_apfloat::Float::to_u128_r` on `ieee::Double` with
/// rounding toward negative infinity: the floor of the value converted to
/// `u64`, saturating below at 0 and above at `u64::MAX`, with NaN taken
/// to 0.
#[verifier::external_body]
pub(crate) fn f64_floor_to_u64(a: u64) -> (r: u64)
    ensures
        r == floor_to_u64(a),
{
    let x = rustc_apfloat::ieee::Double::from_bits(a as u128);
    let mut is_exact = false;
    let converted = x.to_u128_r(64, rustc_apfloat::Round::TowardNegative, &mut is_exact);
    converted.value as u64
}

} // verus!
