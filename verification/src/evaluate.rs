//! Points on a curve.
//!
//! The point at a parameter is the rational combination of the control
//! points that are active over the parameter's span: their weighted sum in
//! homogeneous form, projected back to the plane. The parameter is clamped
//! to the unit interval first, so the curve does not extend beyond its ends.

use vstd::prelude::*;

use crate::arith::{over, plus, product, quotient, sum, times};
use crate::basis::{basis_functions, basis_values};
use crate::binary64::{lemma_clamp_unit_idempotent, Binary64};
use crate::control_point::ControlPoint;
use crate::curve::{CurveView, NurbsCurve};
use crate::span::{find_span, locate_span};

verus! {

/// The homogeneous zero: what a weighted sum starts from.
pub open spec fn nothing() -> ControlPoint {
    ControlPoint { x: Binary64::spec_zero(), y: Binary64::spec_zero(), weight: Binary64::spec_zero() }
}

/// The homogeneous point `total` with one more term: the control point
/// `point`, scaled by its weight and by the basis value `share`.
pub open spec fn accumulated(total: ControlPoint, share: Binary64, point: ControlPoint) -> ControlPoint {
    let scale = product(share, point.weight);
    ControlPoint {
        x: sum(total.x, product(scale, point.x)),
        y: sum(total.y, product(scale, point.y)),
        weight: sum(total.weight, scale),
    }
}

/// The weighted sum, in homogeneous form, of the first `terms` of the
/// control points that start at index `first`, each with its basis value.
/// The terms are added in the order of their indices.
pub open spec fn blend(points: Seq<ControlPoint>, basis: Seq<Binary64>, first: int, terms: nat) -> ControlPoint
    decreases terms,
{
    if terms == 0 {
        nothing()
    } else {
        let i = terms - 1;
        accumulated(blend(points, basis, first, i as nat), basis[i], points[first + i])
    }
}

/// The point of the plane that a homogeneous point stands for, with weight
/// one; none where the magnitude of the homogeneous weight is below 1e-10.
pub open spec fn projected(total: ControlPoint) -> Option<ControlPoint> {
    if total.weight.spec_is_negligible() {
        None
    } else {
        Some(
            ControlPoint {
                x: quotient(total.x, total.weight),
                y: quotient(total.y, total.weight),
                weight: Binary64::spec_one(),
            },
        )
    }
}

impl CurveView {
    /// The point of the curve at the parameter `u`.
    ///
    /// There is none where the curve has no control points or no knots,
    /// where no span can be located, where the located span is below the
    /// degree or not the index of a control point, and where the weights
    /// of the active control points sum to less than 1e-10 in magnitude.
    pub open spec fn evaluate(self, u: Binary64) -> Option<ControlPoint> {
        let clamped = u.spec_clamp_unit();
        if self.points.len() == 0 || self.knots.len() == 0 {
            None
        } else {
            match locate_span(self.knots, self.points.len(), self.degree, clamped) {
                None => None,
                Some(span) => if span < self.degree || span >= self.points.len() {
                    None
                } else {
                    projected(
                        blend(
                            self.points,
                            basis_values(self.knots, self.degree, span as nat, clamped),
                            span - self.degree,
                            self.degree + 1,
                        ),
                    )
                },
            }
        }
    }
}

/// Adds one term to a weighted sum in homogeneous form.
pub fn accumulate(total: ControlPoint, share: Binary64, point: ControlPoint) -> (next: ControlPoint)
    ensures
        next == accumulated(total, share, point),
{
    let scale = times(share, point.weight);
    ControlPoint {
        x: plus(total.x, times(scale, point.x)),
        y: plus(total.y, times(scale, point.y)),
        weight: plus(total.weight, scale),
    }
}

/// Projects a homogeneous point to the plane. There is no point where the
/// magnitude of the homogeneous weight is below 1e-10; else the point has
/// weight one.
pub fn project(total: ControlPoint) -> (point: Option<ControlPoint>)
    ensures
        point == projected(total),
        point is None <==> total.weight.spec_is_negligible(),
        point matches Some(p) ==> p.weight == Binary64::spec_one(),
{
    if total.weight.is_negligible() {
        None
    } else {
        Some(
            ControlPoint {
                x: over(total.x, total.weight),
                y: over(total.y, total.weight),
                weight: Binary64::one(),
            },
        )
    }
}

impl NurbsCurve {
    /// The point of the curve at the parameter `u`, if there is one. A
    /// parameter outside the unit interval gives the point at the nearer
    /// end of the curve.
    pub fn evaluate(&self, u: Binary64) -> (point: Option<ControlPoint>)
        ensures
            point == self@.evaluate(u),
            point == self@.evaluate(u.spec_clamp_unit()),
            point matches Some(p) ==> p.weight == Binary64::spec_one(),
            self@.points.len() == 0 || self@.knots.len() == 0 ==> point is None,
    {
        proof {
            lemma_evaluate_clamped(self@, u);
        }
        if self.control_points.len() == 0 || self.knots.len() == 0 {
            return None;
        }
        let clamped = u.clamp_unit();
        let span = match find_span(&self.knots, self.control_points.len(), self.degree, clamped) {
            Some(span) => span,
            None => {
                return None;
            },
        };
        if span < self.degree || span >= self.control_points.len() {
            return None;
        }
        let basis = basis_functions(&self.knots, self.degree, span, clamped);
        let first: usize = span - self.degree;
        let mut total = ControlPoint {
            x: Binary64::zero(),
            y: Binary64::zero(),
            weight: Binary64::zero(),
        };
        let mut i: usize = 0;
        while i <= self.degree
            invariant
                i <= self.degree + 1,
                self.degree <= span < self.control_points@.len() <= usize::MAX,
                first == span - self.degree,
                basis@.len() == self.degree + 1,
                total == blend(self.control_points@, basis@, first as int, i as nat),
            decreases self.degree + 1 - i,
        {
            total = accumulate(total, basis[i], self.control_points[first + i]);
            i += 1;
        }
        project(total)
    }
}

/// The point at a parameter outside the unit interval is the point at the
/// end of the interval that is nearer to it. A parameter that is not a
/// number counts as zero.
pub proof fn lemma_evaluate_clamped(curve: CurveView, u: Binary64)
    ensures
        curve.evaluate(u) == curve.evaluate(u.spec_clamp_unit()),
        u.spec_ge(Binary64::spec_one()) ==> curve.evaluate(u) == curve.evaluate(Binary64::spec_one()),
        !u.spec_gt(Binary64::spec_zero()) ==> curve.evaluate(u) == curve.evaluate(
            Binary64::spec_zero(),
        ),
{
    lemma_clamp_unit_idempotent(u);
}

/// A point of the curve always has weight one, whatever the weights of the
/// control points.
pub proof fn lemma_evaluate_weight(curve: CurveView, u: Binary64)
    ensures
        curve.evaluate(u) matches Some(p) ==> p.weight == Binary64::spec_one(),
{
}

} // verus!
