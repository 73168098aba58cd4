//! Clamped uniform knot vectors.
//!
//! The knot vector of a curve is a function of the number of its control
//! points and of its degree alone. For the knots the degree is capped at the
//! index of the last control point; the degree of the curve is not changed
//! by that.

use vstd::math::min;
use vstd::prelude::*;

use crate::arith::{count_to_binary64, from_count, over, quotient};
use crate::binary64::Binary64;

verus! {

/// The degree that the knots of `count >= 1` control points are built for:
/// `degree`, capped at the index of the last control point.
pub open spec fn effective_degree(count: nat, degree: nat) -> nat {
    if degree < count {
        degree
    } else {
        (count - 1) as nat
    }
}

/// The number of knots of `count` control points.
pub open spec fn knot_count(count: nat, degree: nat) -> nat {
    if count == 0 {
        2
    } else {
        count + effective_degree(count, degree) + 1
    }
}

/// The knot with index `i` of `count >= 1` control points: zero in front,
/// one behind the last control point, and evenly spaced in between. An
/// inner knot is its distance from the capped degree, divided by the number
/// of inner spans; should that number convert to a magnitude below 1e-10,
/// the knot is `i` divided by the index of the last knot instead.
pub open spec fn knot_at(count: nat, degree: nat, i: nat) -> Binary64 {
    let last = (count - 1) as nat;
    let capped = effective_degree(count, degree);
    let spacing = from_count((last - capped + 1) as nat);
    if i < capped {
        Binary64::spec_zero()
    } else if i > last {
        Binary64::spec_one()
    } else if spacing.spec_is_negligible() {
        quotient(from_count(i), from_count(last + capped + 1))
    } else {
        quotient(from_count((i - capped) as nat), spacing)
    }
}

/// The clamped knot vector of `count` control points. Without control points
/// it is the pair zero, one.
pub open spec fn clamped_knots(count: nat, degree: nat) -> Seq<Binary64> {
    if count == 0 {
        seq![Binary64::spec_zero(), Binary64::spec_one()]
    } else {
        Seq::new(knot_count(count, degree), |i: int| knot_at(count, degree, i as nat))
    }
}

/// Builds the clamped knot vector of `count` control points and the given
/// degree. The count is limited so that the number of knots is a `usize`.
pub fn clamped_knot_vector(count: usize, degree: usize) -> (knots: Vec<Binary64>)
    requires
        2 * count <= usize::MAX,
    ensures
        knots@ == clamped_knots(count as nat, degree as nat),
        knots@.len() == knot_count(count as nat, degree as nat),
{
    let mut knots: Vec<Binary64> = Vec::new();
    if count == 0 {
        knots.push(Binary64::zero());
        knots.push(Binary64::one());
        assert(knots@ =~= clamped_knots(0, degree as nat));
        return knots;
    }
    let last: usize = count - 1;
    let capped: usize = if degree < count { degree } else { last };
    let top: usize = last + capped + 1;
    let spacing = count_to_binary64(last - capped + 1);
    let even = !spacing.is_negligible();
    let mut i: usize = 0;
    while i <= top
        invariant
            count >= 1,
            last == count - 1,
            capped == effective_degree(count as nat, degree as nat),
            capped <= last,
            top == last + capped + 1,
            top < usize::MAX,
            spacing == from_count((last - capped + 1) as nat),
            even == !spacing.spec_is_negligible(),
            i <= top + 1,
            knots@.len() == i,
            forall|k: int| 0 <= k < i ==> knots@[k] == knot_at(count as nat, degree as nat, k as nat),
        decreases top + 1 - i,
    {
        let knot = if i < capped {
            Binary64::zero()
        } else if i > last {
            Binary64::one()
        } else if even {
            over(count_to_binary64(i - capped), spacing)
        } else {
            over(count_to_binary64(i), count_to_binary64(top))
        };
        knots.push(knot);
        i += 1;
    }
    assert(knots@ =~= clamped_knots(count as nat, degree as nat));
    knots
}

/// The knot vector of a curve without control points has two knots, and
/// that of `count >= 1` control points, the last of which has index
/// `n = count - 1`, has `n + min(degree, n) + 2`.
pub proof fn lemma_knot_count(count: nat, degree: nat)
    ensures
        clamped_knots(count, degree).len() == knot_count(count, degree),
        count == 0 ==> knot_count(count, degree) == 2,
        count >= 1 ==> knot_count(count, degree) == (count - 1) + min(degree as int, count - 1) + 2,
        knot_count(count, degree) >= 2,
{
}

/// The knot vector is clamped: the knots in front of the capped degree are
/// zero, and those behind the index of the last control point are one. There
/// are as many of the first as the capped degree says, and one more of the
/// second.
pub proof fn lemma_knots_clamped(count: nat, degree: nat, i: nat)
    requires
        count >= 1,
        i < knot_count(count, degree),
    ensures
        i < effective_degree(count, degree) ==> clamped_knots(count, degree)[i as int]
            == Binary64::spec_zero(),
        i >= count ==> clamped_knots(count, degree)[i as int] == Binary64::spec_one(),
        knot_count(count, degree) - count == effective_degree(count, degree) + 1,
{
}

} // verus!
