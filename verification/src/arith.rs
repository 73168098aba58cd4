//! Rounded binary64 arithmetic.
//!
//! Sums, differences, products, quotients and the conversion of a count are
//! carried out by `rustc_apfloat` on bit patterns, rounding to nearest with
//! ties to even. What they yield is not described here: each result is
//! named by a specification function of the operand encodings, and the rest
//! of the crate states its own results over these names. Nothing is assumed
//! of a name but that equal operands give equal results.

use rustc_apfloat::ieee::Double;
use rustc_apfloat::{Float, Round};
use vstd::prelude::*;

use crate::binary64::Binary64;

verus! {

/// The encoding of the rounded sum of the values encoded by `a` and `b`.
pub uninterp spec fn binary64_sum(a: u64, b: u64) -> u64;

/// The encoding of the rounded difference of the values encoded by `a` and `b`.
pub uninterp spec fn binary64_difference(a: u64, b: u64) -> u64;

/// The encoding of the rounded product of the values encoded by `a` and `b`.
pub uninterp spec fn binary64_product(a: u64, b: u64) -> u64;

/// The encoding of the rounded quotient of the values encoded by `a` and `b`.
pub uninterp spec fn binary64_quotient(a: u64, b: u64) -> u64;

/// The encoding of the binary64 value nearest to the natural number `n`.
pub uninterp spec fn binary64_from_count(n: nat) -> u64;

/// `a + b`.
pub open spec fn sum(a: Binary64, b: Binary64) -> Binary64 {
    Binary64 { bits: binary64_sum(a.bits, b.bits) }
}

/// `a - b`.
pub open spec fn difference(a: Binary64, b: Binary64) -> Binary64 {
    Binary64 { bits: binary64_difference(a.bits, b.bits) }
}

/// `a * b`.
pub open spec fn product(a: Binary64, b: Binary64) -> Binary64 {
    Binary64 { bits: binary64_product(a.bits, b.bits) }
}

/// `a / b`.
pub open spec fn quotient(a: Binary64, b: Binary64) -> Binary64 {
    Binary64 { bits: binary64_quotient(a.bits, b.bits) }
}

/// The natural number `n` as a binary64 value.
pub open spec fn from_count(n: nat) -> Binary64 {
    Binary64 { bits: binary64_from_count(n) }
}

/// `a / b`, or zero where the magnitude of `b` is below 1e-10.
pub open spec fn guarded_quotient(a: Binary64, b: Binary64) -> Binary64 {
    if b.spec_is_negligible() {
        Binary64::spec_zero()
    } else {
        quotient(a, b)
    }
}

/// `a + b`. Calls `Float::add_r` of `rustc_apfloat` on `ieee::Double`,
/// rounding to nearest, ties to even.
///
/// Not proved: that the encoding of the result is a function of the two
/// operand encodings alone, the one that `binary64_sum` names.
#[verifier::external_body]
pub(crate) fn plus(a: Binary64, b: Binary64) -> (r: Binary64)
    ensures
        r.bits == binary64_sum(a.bits, b.bits),
{
    let x = Double::from_bits(a.bits as u128);
    let y = Double::from_bits(b.bits as u128);
    Binary64 { bits: x.add_r(y, Round::NearestTiesToEven).value.to_bits() as u64 }
}

/// `a - b`. Calls `Float::sub_r` of `rustc_apfloat` on `ieee::Double`,
/// rounding to nearest, ties to even.
///
/// Not proved: that the encoding of the result is a function of the two
/// operand encodings alone, the one that `binary64_difference` names.
#[verifier::external_body]
pub(crate) fn minus(a: Binary64, b: Binary64) -> (r: Binary64)
    ensures
        r.bits == binary64_difference(a.bits, b.bits),
{
    let x = Double::from_bits(a.bits as u128);
    let y = Double::from_bits(b.bits as u128);
    Binary64 { bits: x.sub_r(y, Round::NearestTiesToEven).value.to_bits() as u64 }
}

/// `a * b`. Calls `Float::mul_r` of `rustc_apfloat` on `ieee::Double`,
/// rounding to nearest, ties to even.
///
/// Not proved: that the encoding of the result is a function of the two
/// operand encodings alone, the one that `binary64_product` names.
#[verifier::external_body]
pub(crate) fn times(a: Binary64, b: Binary64) -> (r: Binary64)
    ensures
        r.bits == binary64_product(a.bits, b.bits),
{
    let x = Double::from_bits(a.bits as u128);
    let y = Double::from_bits(b.bits as u128);
    Binary64 { bits: x.mul_r(y, Round::NearestTiesToEven).value.to_bits() as u64 }
}

/// `a / b`. Calls `Float::div_r` of `rustc_apfloat` on `ieee::Double`,
/// rounding to nearest, ties to even. Division by zero is no failure: it
/// yields an infinity or a NaN.
///
/// Not proved: that the encoding of the result is a function of the two
/// operand encodings alone, the one that `binary64_quotient` names.
#[verifier::external_body]
pub(crate) fn over(a: Binary64, b: Binary64) -> (r: Binary64)
    ensures
        r.bits == binary64_quotient(a.bits, b.bits),
{
    let x = Double::from_bits(a.bits as u128);
    let y = Double::from_bits(b.bits as u128);
    Binary64 { bits: x.div_r(y, Round::NearestTiesToEven).value.to_bits() as u64 }
}

/// The number `n` as a binary64 value. Calls `Float::from_u128` of
/// `rustc_apfloat` on `ieee::Double`, which rounds to nearest, ties to even.
///
/// Not proved: that the encoding of the result is a function of `n`
/// alone, the one that `binary64_from_count` names.
#[verifier::external_body]
pub(crate) fn count_to_binary64(n: usize) -> (r: Binary64)
    ensures
        r.bits == binary64_from_count(n as nat),
{
    Binary64 { bits: Double::from_u128(n as u128).value.to_bits() as u64 }
}

/// `a / b`, unless the magnitude of `b` is below 1e-10: then zero, and no
/// division takes place.
pub fn divide_guarded(a: Binary64, b: Binary64) -> (r: Binary64)
    ensures
        r == guarded_quotient(a, b),
{
    if b.is_negligible() {
        Binary64::zero()
    } else {
        over(a, b)
    }
}

} // verus!
