//! The B-spline basis functions that are active over a knot span.
//!
//! The values follow the Cox-de Boor recurrence, level by level. Each level
//! splits every value of the level below into two shares, one for each of
//! its neighbours above, in proportion to the distances of the parameter
//! from two knots. A share whose divisor has a magnitude below 1e-10 is
//! zero.

use vstd::prelude::*;

use crate::arith::{
    difference, divide_guarded, guarded_quotient, minus, plus, product, sum, times,
};
use crate::binary64::Binary64;

verus! {

/// The distance of the parameter from the `k`-th knot to the left of the
/// span's end.
pub open spec fn left(knots: Seq<Binary64>, span: int, u: Binary64, k: int) -> Binary64 {
    difference(u, knots[span + 1 - k])
}

/// The distance of the `k`-th knot to the right of the span's start from the
/// parameter.
pub open spec fn right(knots: Seq<Binary64>, span: int, u: Binary64, k: int) -> Binary64 {
    difference(knots[span + k], u)
}

/// Whether the basis functions of a span are defined: the span is at least
/// the degree, and `degree` knots follow it.
pub open spec fn basis_defined(knots: nat, degree: nat, span: nat) -> bool {
    span >= degree && span + degree < knots
}

/// The value `below`, which has index `r` on the level under `level`,
/// divided by the width of its support.
pub open spec fn share(
    knots: Seq<Binary64>,
    span: int,
    u: Binary64,
    level: int,
    r: int,
    below: Binary64,
) -> Binary64 {
    guarded_quotient(below, sum(right(knots, span, u, r + 1), left(knots, span, u, level - r)))
}

/// What the value `below`, which has index `r` on the level under `level`,
/// hands to the value with the same index on `level`.
pub open spec fn kept(
    knots: Seq<Binary64>,
    span: int,
    u: Binary64,
    level: int,
    r: int,
    below: Binary64,
) -> Binary64 {
    product(right(knots, span, u, r + 1), share(knots, span, u, level, r, below))
}

/// What the value `below`, which has index `r` on the level under `level`,
/// hands to the value with the next index on `level`.
pub open spec fn passed_on(
    knots: Seq<Binary64>,
    span: int,
    u: Binary64,
    level: int,
    r: int,
    below: Binary64,
) -> Binary64 {
    product(left(knots, span, u, level - r), share(knots, span, u, level, r, below))
}

/// The basis function with index `r` on the given level, at the parameter
/// `u`: one on level zero; above it, what its left neighbour below passes
/// on plus what the value right below it keeps. The first value of a level
/// has no left neighbour below and starts from zero; the last has only
/// that neighbour. Outside the level's indices the value is zero.
pub open spec fn basis_value(
    knots: Seq<Binary64>,
    span: int,
    u: Binary64,
    level: nat,
    r: int,
) -> Binary64
    decreases level,
{
    if r < 0 || r > level {
        Binary64::spec_zero()
    } else if level == 0 {
        Binary64::spec_one()
    } else {
        let under = (level - 1) as nat;
        let carried = if r == 0 {
            Binary64::spec_zero()
        } else {
            passed_on(knots, span, u, level as int, r - 1, basis_value(knots, span, u, under, r - 1))
        };
        if r == level {
            carried
        } else {
            sum(carried, kept(knots, span, u, level as int, r, basis_value(knots, span, u, under, r)))
        }
    }
}

/// The `degree + 1` basis functions over a span at the parameter `u`: the
/// values of the level `degree` where they are defined, and zeros where
/// they are not.
pub open spec fn basis_values(knots: Seq<Binary64>, degree: nat, span: nat, u: Binary64) -> Seq<
    Binary64,
> {
    if basis_defined(knots.len(), degree, span) {
        Seq::new(degree + 1, |r: int| basis_value(knots, span as int, u, degree, r))
    } else {
        Seq::new(degree + 1, |r: int| Binary64::spec_zero())
    }
}

/// A vector of `count` zeros.
fn zeros(count: usize) -> (values: Vec<Binary64>)
    ensures
        values@.len() == count,
        forall|i: int| 0 <= i < count ==> values@[i] == Binary64::spec_zero(),
{
    let mut values: Vec<Binary64> = Vec::new();
    let mut i: usize = 0;
    while i < count
        invariant
            i <= count,
            values@.len() == i,
            forall|k: int| 0 <= k < i ==> values@[k] == Binary64::spec_zero(),
        decreases count - i,
    {
        values.push(Binary64::zero());
        i += 1;
    }
    values
}

/// Computes the `degree + 1` basis functions over `span` at the parameter
/// `u`. Where the span is below the degree, or fewer than `degree` knots
/// follow it, all of them are zero.
///
/// The degree is limited so that the number of values is a `usize`.
pub fn basis_functions(knots: &Vec<Binary64>, degree: usize, span: usize, u: Binary64) -> (basis:
    Vec<Binary64>)
    requires
        degree < usize::MAX,
    ensures
        basis@ == basis_values(knots@, degree as nat, span as nat, u),
        basis@.len() == degree + 1,
{
    let mut basis = zeros(degree + 1);
    if span < degree || span >= knots.len() || degree >= knots.len() - span {
        assert(basis@ =~= basis_values(knots@, degree as nat, span as nat, u));
        return basis;
    }
    let mut left_of = zeros(degree + 1);
    let mut right_of = zeros(degree + 1);
    basis.set(0, Binary64::one());
    let mut level: usize = 1;
    while level <= degree
        invariant
            1 <= level <= degree + 1,
            degree < usize::MAX,
            span >= degree,
            span + degree < knots@.len() <= usize::MAX,
            basis@.len() == degree + 1,
            left_of@.len() == degree + 1,
            right_of@.len() == degree + 1,
            forall|k: int| 1 <= k < level ==> left_of@[k] == left(knots@, span as int, u, k),
            forall|k: int| 1 <= k < level ==> right_of@[k] == right(knots@, span as int, u, k),
            forall|r: int|
                0 <= r <= degree ==> basis@[r] == basis_value(
                    knots@,
                    span as int,
                    u,
                    (level - 1) as nat,
                    r,
                ),
        decreases degree + 1 - level,
    {
        left_of.set(level, minus(u, knots[span + 1 - level]));
        right_of.set(level, minus(knots[span + level], u));
        let mut saved = Binary64::zero();
        let mut r: usize = 0;
        while r < level
            invariant
                0 <= r <= level <= degree,
                degree < usize::MAX,
                basis@.len() == degree + 1,
                left_of@.len() == degree + 1,
                right_of@.len() == degree + 1,
                forall|k: int| 1 <= k <= level ==> left_of@[k] == left(knots@, span as int, u, k),
                forall|k: int| 1 <= k <= level ==> right_of@[k] == right(knots@, span as int, u, k),
                forall|k: int|
                    0 <= k < r ==> basis@[k] == basis_value(
                        knots@,
                        span as int,
                        u,
                        level as nat,
                        k,
                    ),
                forall|k: int|
                    r <= k <= degree ==> basis@[k] == basis_value(
                        knots@,
                        span as int,
                        u,
                        (level - 1) as nat,
                        k,
                    ),
                saved == if r == 0 {
                    Binary64::spec_zero()
                } else {
                    passed_on(
                        knots@,
                        span as int,
                        u,
                        level as int,
                        r - 1,
                        basis_value(knots@, span as int, u, (level - 1) as nat, r - 1),
                    )
                },
            decreases level - r,
        {
            let divisor = plus(right_of[r + 1], left_of[level - r]);
            let portion = divide_guarded(basis[r], divisor);
            basis.set(r, plus(saved, times(right_of[r + 1], portion)));
            saved = times(left_of[level - r], portion);
            r += 1;
        }
        basis.set(level, saved);
        level += 1;
    }
    assert(basis@ =~= basis_values(knots@, degree as nat, span as nat, u));
    basis
}

/// There are always `degree + 1` basis functions, and without a defined
/// span all of them are zero.
pub proof fn lemma_basis_values_shape(knots: Seq<Binary64>, degree: nat, span: nat, u: Binary64)
    ensures
        basis_values(knots, degree, span, u).len() == degree + 1,
        !basis_defined(knots.len(), degree, span) ==> forall|r: int|
            0 <= r <= degree ==> basis_values(knots, degree, span, u)[r] == Binary64::spec_zero(),
{
}

/// The basis function of degree zero is the constant one.
pub proof fn lemma_basis_values_constant(knots: Seq<Binary64>, span: nat, u: Binary64)
    requires
        span < knots.len(),
    ensures
        basis_values(knots, 0, span, u) == seq![Binary64::spec_one()],
{
    assert(basis_values(knots, 0, span, u) =~= seq![Binary64::spec_one()]);
}

} // verus!
