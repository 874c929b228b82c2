use vstd::prelude::*;
use crate::{Bits32, Bits64};
use rustc_apfloat::Float;
use rustc_apfloat::FloatConvert;
use rustc_apfloat::Round;
use rustc_apfloat::StatusAnd;
use rustc_apfloat::ieee::Double;
use rustc_apfloat::ieee::Single;
use core::cmp::Ordering;

verus! {

// ---------------------------------------------------------------------------
// Names for the IEEE-754 arithmetic this pipeline leans on. Each operation is
// a pure function of its operand bits (round to nearest, ties to even
// throughout), so naming its result is sound; the contracts of the
// normalization pipeline are stated exactly over these names.
// ---------------------------------------------------------------------------

/// IEEE-754 single-precision addition on bit patterns.
pub uninterp spec fn add32(a: Bits32, b: Bits32) -> Bits32;

/// IEEE-754 single-precision subtraction on bit patterns.
pub uninterp spec fn sub32(a: Bits32, b: Bits32) -> Bits32;

/// IEEE-754 single-precision multiplication on bit patterns.
pub uninterp spec fn mul32(a: Bits32, b: Bits32) -> Bits32;

/// IEEE-754 single-precision division on bit patterns.
pub uninterp spec fn div32(a: Bits32, b: Bits32) -> Bits32;

/// Correctly rounded IEEE-754 single-precision square root on bit patterns.
pub uninterp spec fn sqrt32(a: Bits32) -> Bits32;

/// Exact widening of a single-precision bit pattern to double precision.
pub uninterp spec fn widen32(a: Bits32) -> Bits64;

/// IEEE-754 double-precision multiplication on bit patterns.
pub uninterp spec fn mul64(a: Bits64, b: Bits64) -> Bits64;

/// IEEE-754 double-precision subtraction on bit patterns.
pub uninterp spec fn sub64(a: Bits64, b: Bits64) -> Bits64;

// ---------------------------------------------------------------------------
// IEEE-754 single-precision comparison, stated exactly: a quiet comparison
// orders the values by sign and magnitude, treats the two zeros as equal, and
// never orders a NaN.
// ---------------------------------------------------------------------------

/// Whether a single-precision bit pattern is a NaN.
pub open spec fn is_nan32(a: Bits32) -> bool {
    (a >> 23u32) & 0xFF == 0xFF && a & 0x7F_FFFF != 0
}

/// The magnitude bits of a single-precision pattern.
pub open spec fn mag32(a: Bits32) -> int {
    (a & 0x7FFF_FFFF) as int
}

/// A single-precision pattern mapped to an integer that orders exactly as the
/// value it encodes: negative values below, the two zeros together at zero.
pub open spec fn total32(a: Bits32) -> int {
    if a >> 31u32 == 1 {
        -mag32(a)
    } else {
        mag32(a)
    }
}

/// IEEE quiet equality on single-precision bit patterns.
pub open spec fn spec_f32_eq(a: Bits32, b: Bits32) -> bool {
    !is_nan32(a) && !is_nan32(b) && total32(a) == total32(b)
}

/// IEEE quiet less-than on single-precision bit patterns.
pub open spec fn spec_f32_lt(a: Bits32, b: Bits32) -> bool {
    !is_nan32(a) && !is_nan32(b) && total32(a) < total32(b)
}

/// IEEE quiet less-or-equal on single-precision bit patterns.
pub open spec fn spec_f32_le(a: Bits32, b: Bits32) -> bool {
    !is_nan32(a) && !is_nan32(b) && total32(a) <= total32(b)
}

// ---------------------------------------------------------------------------
// Trusted reach into the software floating-point crates.
// ---------------------------------------------------------------------------

/// Relies on rustc_apfloat's `Single::add_r`: IEEE single-precision addition,
/// rounded to nearest, ties to even.
#[verifier::external_body]
pub(crate) fn f32_add(a: Bits32, b: Bits32) -> (r: Bits32)
    ensures
        r == add32(a, b),
{
    let x = Single::from_bits(a as u128);
    let y = Single::from_bits(b as u128);
    x.add_r(y, Round::NearestTiesToEven).value.to_bits() as u32
}

/// Relies on rustc_apfloat's `Single::sub_r`: IEEE single-precision
/// subtraction, rounded to nearest, ties to even.
#[verifier::external_body]
pub(crate) fn f32_sub(a: Bits32, b: Bits32) -> (r: Bits32)
    ensures
        r == sub32(a, b),
{
    let x = Single::from_bits(a as u128);
    let y = Single::from_bits(b as u128);
    x.sub_r(y, Round::NearestTiesToEven).value.to_bits() as u32
}

/// Relies on rustc_apfloat's `Single::mul_r`: IEEE single-precision
/// multiplication, rounded to nearest, ties to even.
#[verifier::external_body]
pub(crate) fn f32_mul(a: Bits32, b: Bits32) -> (r: Bits32)
    ensures
        r == mul32(a, b),
{
    let x = Single::from_bits(a as u128);
    let y = Single::from_bits(b as u128);
    x.mul_r(y, Round::NearestTiesToEven).value.to_bits() as u32
}

/// Relies on rustc_apfloat's `Single::div_r`: IEEE single-precision division,
/// rounded to nearest, ties to even.
#[verifier::external_body]
pub(crate) fn f32_div(a: Bits32, b: Bits32) -> (r: Bits32)
    ensures
        r == div32(a, b),
{
    let x = Single::from_bits(a as u128);
    let y = Single::from_bits(b as u128);
    x.div_r(y, Round::NearestTiesToEven).value.to_bits() as u32
}

/// Relies on ieee_apsqrt's `sqrt_accurate`, the correctly rounded IEEE
/// single-precision square root on bit patterns.
#[verifier::external_body]
pub(crate) fn f32_sqrt(a: Bits32) -> (r: Bits32)
    ensures
        r == sqrt32(a),
{
    ieee_apsqrt::sqrt_accurate(a, Round::NearestTiesToEven).0.value
}

/// Relies on rustc_apfloat's IEEE quiet comparison (`PartialEq` on `Single`):
/// NaN equals nothing, the two zeros are equal.
#[verifier::external_body]
pub(crate) fn f32_eq(a: Bits32, b: Bits32) -> (r: bool)
    ensures
        r == spec_f32_eq(a, b),
{
    Single::from_bits(a as u128) == Single::from_bits(b as u128)
}

/// Relies on rustc_apfloat's IEEE quiet comparison (`PartialOrd` on
/// `Single`): ordered by value, never ordering a NaN.
#[verifier::external_body]
pub(crate) fn f32_lt(a: Bits32, b: Bits32) -> (r: bool)
    ensures
        r == spec_f32_lt(a, b),
{
    let x = Single::from_bits(a as u128);
    let y = Single::from_bits(b as u128);
    x.partial_cmp(&y) == Some(Ordering::Less)
}

/// Relies on rustc_apfloat's IEEE quiet comparison (`PartialOrd` on
/// `Single`): ordered by value, never ordering a NaN.
#[verifier::external_body]
pub(crate) fn f32_le(a: Bits32, b: Bits32) -> (r: bool)
    ensures
        r == spec_f32_le(a, b),
{
    let x = Single::from_bits(a as u128);
    let y = Single::from_bits(b as u128);
    let c = x.partial_cmp(&y);
    c == Some(Ordering::Less) || c == Some(Ordering::Equal)
}

/// Relies on rustc_apfloat's `convert_r` from `Single` to `Double`: the exact
/// widening of a single-precision value to double precision.
#[verifier::external_body]
pub(crate) fn f32_to_f64(a: Bits32) -> (r: Bits64)
    ensures
        r == widen32(a),
{
    let mut loses_info = false;
    let d: StatusAnd<Double> =
        Single::from_bits(a as u128).convert_r(Round::NearestTiesToEven, &mut loses_info);
    d.value.to_bits() as u64
}

/// Relies on rustc_apfloat's `Double::mul_r`: IEEE double-precision
/// multiplication, rounded to nearest, ties to even.
#[verifier::external_body]
pub(crate) fn f64_mul(a: Bits64, b: Bits64) -> (r: Bits64)
    ensures
        r == mul64(a, b),
{
    let x = Double::from_bits(a as u128);
    let y = Double::from_bits(b as u128);
    x.mul_r(y, Round::NearestTiesToEven).value.to_bits() as u64
}

/// Relies on rustc_apfloat's `Double::sub_r`: IEEE double-precision
/// subtraction, rounded to nearest, ties to even.
#[verifier::external_body]
pub(crate) fn f64_sub(a: Bits64, b: Bits64) -> (r: Bits64)
    ensures
        r == sub64(a, b),
{
    let x = Double::from_bits(a as u128);
    let y = Double::from_bits(b as u128);
    x.sub_r(y, Round::NearestTiesToEven).value.to_bits() as u64
}

/// Negation of a single-precision value: IEEE negation flips exactly the sign
/// bit, so this needs no arithmetic.
pub fn f32_neg(a: Bits32) -> (r: Bits32)
    ensures
        r == (a ^ 0x8000_0000u32),
{
    a ^ 0x8000_0000u32
}

} // verus!
