//! Arithmetic on IEEE-754 double-precision values, carried as their 64-bit
//! bit patterns.
//!
//! Verified code cannot hold a floating-point value, so every coordinate and
//! escape value in this crate travels as the `u64` bit pattern of the double
//! it stands for. Each arithmetic operation is performed by `rustc_apfloat`'s
//! software implementation of IEEE-754 binary64, behind a trusted wrapper
//! whose result is pinned by an uninterpreted name: the contracts of the rest
//! of the crate state every result as an exact composition of those names.

use vstd::prelude::*;
use rustc_apfloat::Float;
use rustc_apfloat::Round;
use rustc_apfloat::ieee::Double;

verus! {

/// Name for the round-to-nearest-even sum of two doubles, as bit patterns.
pub uninterp spec fn add_bits(a: u64, b: u64) -> u64;

/// Name for the round-to-nearest-even difference of two doubles, as bit patterns.
pub uninterp spec fn sub_bits(a: u64, b: u64) -> u64;

/// Name for the round-to-nearest-even product of two doubles, as bit patterns.
pub uninterp spec fn mul_bits(a: u64, b: u64) -> u64;

/// Name for the round-to-nearest-even quotient of two doubles, as bit patterns.
pub uninterp spec fn div_bits(a: u64, b: u64) -> u64;

/// Name for the quiet `>` comparison of two doubles, given as bit patterns
/// (false whenever either operand is a NaN).
pub uninterp spec fn gt_bits(a: u64, b: u64) -> bool;

/// Name for the double nearest the given integer (exact below 2^53, so exact
/// for every `u32`), as a bit pattern.
pub uninterp spec fn of_u32_bits(x: u32) -> u64;

/// Relies on rustc_apfloat::ieee::Double::add_r with round-to-nearest-even:
/// the result depends on the two operands alone.
#[verifier::external_body]
pub(crate) fn dadd(a: u64, b: u64) -> (r: u64)
    ensures
        r == add_bits(a, b),
{
    let x = Double::from_bits(a as u128);
    let y = Double::from_bits(b as u128);
    x.add_r(y, Round::NearestTiesToEven).value.to_bits() as u64
}

/// Relies on rustc_apfloat::ieee::Double::sub_r with round-to-nearest-even:
/// the result depends on the two operands alone.
#[verifier::external_body]
pub(crate) fn dsub(a: u64, b: u64) -> (r: u64)
    ensures
        r == sub_bits(a, b),
{
    let x = Double::from_bits(a as u128);
    let y = Double::from_bits(b as u128);
    x.sub_r(y, Round::NearestTiesToEven).value.to_bits() as u64
}

/// Relies on rustc_apfloat::ieee::Double::mul_r with round-to-nearest-even:
/// the result depends on the two operands alone.
#[verifier::external_body]
pub(crate) fn dmul(a: u64, b: u64) -> (r: u64)
    ensures
        r == mul_bits(a, b),
{
    let x = Double::from_bits(a as u128);
    let y = Double::from_bits(b as u128);
    x.mul_r(y, Round::NearestTiesToEven).value.to_bits() as u64
}

/// Relies on rustc_apfloat::ieee::Double::div_r with round-to-nearest-even:
/// the result depends on the two operands alone.
#[verifier::external_body]
pub(crate) fn ddiv(a: u64, b: u64) -> (r: u64)
    ensures
        r == div_bits(a, b),
{
    let x = Double::from_bits(a as u128);
    let y = Double::from_bits(b as u128);
    x.div_r(y, Round::NearestTiesToEven).value.to_bits() as u64
}

/// Relies on the PartialOrd impl of rustc_apfloat::ieee::Double, the IEEE-754
/// quiet ordering: the result depends on the two operands alone.
#[verifier::external_body]
pub(crate) fn dgt(a: u64, b: u64) -> (r: bool)
    ensures
        r == gt_bits(a, b),
{
    Double::from_bits(a as u128) > Double::from_bits(b as u128)
}

/// Relies on rustc_apfloat::ieee::Double::from_u128_r, the integer-to-double
/// conversion: the result depends on the integer alone.
#[verifier::external_body]
pub(crate) fn du32(x: u32) -> (r: u64)
    ensures
        r == of_u32_bits(x),
{
    Double::from_u128_r(x as u128, Round::NearestTiesToEven).value.to_bits() as u64
}

} // verus!
