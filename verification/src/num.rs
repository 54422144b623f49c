//! Rounding double-precision arithmetic on raw bit patterns.
//!
//! Each primitive is a pure function of its operand patterns, the same in
//! every process and on every machine, so its result carries a name that the
//! callers' contracts compose. The computation itself is delegated to the
//! outside soft-float routines.

use vstd::prelude::*;
use crate::ieee::spec_is_nan;
use const_soft_float::soft_f64::SoftF64;

verus! {

pub uninterp spec fn add_bits(a: u64, b: u64) -> u64;

pub uninterp spec fn sub_bits(a: u64, b: u64) -> u64;

pub uninterp spec fn mul_bits(a: u64, b: u64) -> u64;

pub uninterp spec fn div_bits(a: u64, b: u64) -> u64;

pub uninterp spec fn sqrt_bits(a: u64) -> u64;

/// Relies on const_soft_float's SoftF64::add: IEEE 754 double addition,
/// round to nearest, a pure function of the two patterns; a NaN operand
/// gives a NaN result.
#[verifier::external_body]
pub fn add(a: u64, b: u64) -> (r: u64)
    ensures
        r == add_bits(a, b),
        spec_is_nan(a) || spec_is_nan(b) ==> spec_is_nan(r),
{
    SoftF64::from_bits(a).add(SoftF64::from_bits(b)).to_bits()
}

/// Relies on const_soft_float's SoftF64::sub: IEEE 754 double subtraction,
/// round to nearest, a pure function of the two patterns; a NaN operand
/// gives a NaN result.
#[verifier::external_body]
pub fn sub(a: u64, b: u64) -> (r: u64)
    ensures
        r == sub_bits(a, b),
        spec_is_nan(a) || spec_is_nan(b) ==> spec_is_nan(r),
{
    SoftF64::from_bits(a).sub(SoftF64::from_bits(b)).to_bits()
}

/// Relies on const_soft_float's SoftF64::mul: IEEE 754 double
/// multiplication, round to nearest, a pure function of the two patterns;
/// a NaN operand gives a NaN result.
#[verifier::external_body]
pub fn mul(a: u64, b: u64) -> (r: u64)
    ensures
        r == mul_bits(a, b),
        spec_is_nan(a) || spec_is_nan(b) ==> spec_is_nan(r),
{
    SoftF64::from_bits(a).mul(SoftF64::from_bits(b)).to_bits()
}

/// Relies on const_soft_float's SoftF64::div: IEEE 754 double division,
/// round to nearest, a pure function of the two patterns; a NaN operand
/// gives a NaN result.
#[verifier::external_body]
pub fn div(a: u64, b: u64) -> (r: u64)
    ensures
        r == div_bits(a, b),
        spec_is_nan(a) || spec_is_nan(b) ==> spec_is_nan(r),
{
    SoftF64::from_bits(a).div(SoftF64::from_bits(b)).to_bits()
}

/// Relies on const_soft_float's SoftF64::sqrt: IEEE 754 double square root,
/// round to nearest, a pure function of the pattern; NaN and negative
/// inputs give a NaN result.
#[verifier::external_body]
pub fn sqrt(a: u64) -> (r: u64)
    ensures
        r == sqrt_bits(a),
        spec_is_nan(a) ==> spec_is_nan(r),
{
    SoftF64::from_bits(a).sqrt().to_bits()
}

} // verus!
