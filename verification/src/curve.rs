//! NURBS curves: control points, knots and a degree.
//!
//! A curve starts without control points and grows by appending them. Each
//! append rebuilds the knot vector. Replacing a control point in place
//! leaves the knots alone, and so does a change of nothing else: the degree
//! is fixed when the curve is made. The knots may also be supplied from
//! outside; they stay until the next append.

use vstd::prelude::*;

use crate::basis::{basis_functions, basis_values};
use crate::binary64::Binary64;
use crate::control_point::ControlPoint;
use crate::knots::{clamped_knot_vector, clamped_knots, knot_count};
use crate::span::{all_numbers, find_span, is_span_of, locatable, locate_span};

verus! {

/// A NURBS curve in the plane.
pub struct NurbsCurve {
    pub(crate) control_points: Vec<ControlPoint>,
    pub(crate) knots: Vec<Binary64>,
    pub(crate) degree: usize,
}

/// What a curve is made of: its control points in the order in which they
/// were appended, its knots, and its degree.
pub struct CurveView {
    pub points: Seq<ControlPoint>,
    pub knots: Seq<Binary64>,
    pub degree: nat,
}

impl View for NurbsCurve {
    type V = CurveView;

    open(crate) spec fn view(&self) -> CurveView {
        CurveView { points: self.control_points@, knots: self.knots@, degree: self.degree as nat }
    }
}

impl CurveView {
    /// The curve of the given degree without control points and without
    /// knots.
    pub open spec fn empty(degree: nat) -> CurveView {
        CurveView { points: Seq::empty(), knots: Seq::empty(), degree }
    }

    /// The curve with one more control point at the end, and with the
    /// clamped knots of the new number of control points.
    pub open spec fn appended(self, point: ControlPoint) -> CurveView {
        CurveView {
            points: self.points.push(point),
            knots: clamped_knots(self.points.len() + 1, self.degree),
            degree: self.degree,
        }
    }

    /// Whether the knots are the clamped knots of the control points.
    pub open spec fn has_clamped_knots(self) -> bool {
        self.knots == clamped_knots(self.points.len(), self.degree)
    }
}

impl NurbsCurve {
    /// A curve of the given degree, without control points and without
    /// knots.
    pub fn new(degree: usize) -> (curve: NurbsCurve)
        ensures
            curve@ == CurveView::empty(degree as nat),
    {
        NurbsCurve { control_points: Vec::new(), knots: Vec::new(), degree }
    }

    /// Appends a control point and rebuilds the knots.
    ///
    /// The number of control points is limited so that the number of knots
    /// is a `usize`.
    pub fn add_control_point(&mut self, control_point: ControlPoint)
        requires
            2 * (old(self)@.points.len() + 1) <= usize::MAX,
        ensures
            final(self)@ == old(self)@.appended(control_point),
            final(self)@.has_clamped_knots(),
            final(self)@.knots.len() == knot_count(final(self)@.points.len(), final(self)@.degree),
    {
        self.control_points.push(control_point);
        self.update_knots();
    }

    /// Replaces the knots by the given ones. Nothing is asked of them.
    pub fn set_knots(&mut self, knots: Vec<Binary64>)
        ensures
            final(self)@ == (CurveView { knots: knots@, ..old(self)@ }),
    {
        self.knots = knots;
    }

    /// Replaces the knots by the clamped knots of the control points.
    pub fn update_knots(&mut self)
        requires
            2 * old(self)@.points.len() <= usize::MAX,
        ensures
            final(self)@ == (CurveView {
                knots: clamped_knots(old(self)@.points.len(), old(self)@.degree),
                ..old(self)@
            }),
            final(self)@.has_clamped_knots(),
            final(self)@.knots.len() == knot_count(old(self)@.points.len(), old(self)@.degree),
    {
        self.knots = clamped_knot_vector(self.control_points.len(), self.degree);
    }

    /// The span of the parameter `u`, or `None` where the curve has too few
    /// control points or knots for a span to be located.
    pub fn find_span(&self, u: Binary64) -> (span: Option<usize>)
        ensures
            match span {
                Some(s) => locate_span(self@.knots, self@.points.len(), self@.degree, u) == Some(
                    s as int,
                ),
                None => locate_span(self@.knots, self@.points.len(), self@.degree, u) is None,
            },
            span is None <==> !locatable(self@.points.len(), self@.knots.len(), self@.degree),
            span is Some && self@.degree < self@.points.len() && all_numbers(
                self@.knots,
                self@.degree as int,
                self@.points.len() as int,
            ) ==> is_span_of(
                self@.knots,
                self@.points.len(),
                self@.degree,
                u.spec_clamp_unit(),
                span.unwrap() as int,
            ),
    {
        find_span(&self.knots, self.control_points.len(), self.degree, u)
    }

    /// The `degree + 1` basis functions over `span` at the parameter `u`;
    /// zeros where the span is below the degree or fewer than `degree`
    /// knots follow it.
    ///
    /// The degree is limited so that the number of values is a `usize`.
    pub fn calculate_basis_functions(&self, span: usize, u: Binary64) -> (basis: Vec<Binary64>)
        requires
            self@.degree < usize::MAX,
        ensures
            basis@ == basis_values(self@.knots, self@.degree, span as nat, u),
            basis@.len() == self@.degree + 1,
    {
        basis_functions(&self.knots, self.degree, span, u)
    }

    /// The number of control points.
    pub fn num_control_points(&self) -> (count: usize)
        ensures
            count == self@.points.len(),
    {
        self.control_points.len()
    }

    /// A copy of the control point with the given index, if there is one.
    pub fn get_control_point(&self, index: usize) -> (point: Option<ControlPoint>)
        ensures
            index < self@.points.len() ==> point == Some(self@.points[index as int]),
            index >= self@.points.len() ==> point is None,
    {
        if index < self.control_points.len() {
            Some(self.control_points[index])
        } else {
            None
        }
    }

    /// Replaces the control point with the given index and says whether
    /// there was one. The knots stay as they are. Without such a control
    /// point the curve is left unchanged.
    pub fn update_control_point(
        &mut self,
        index: usize,
        x: Binary64,
        y: Binary64,
        weight: Binary64,
    ) -> (updated: bool)
        ensures
            updated <==> index < old(self)@.points.len(),
            updated ==> final(self)@ == (CurveView {
                points: old(self)@.points.update(index as int, ControlPoint { x, y, weight }),
                ..old(self)@
            }),
            !updated ==> final(self)@ == old(self)@,
            final(self)@.knots == old(self)@.knots,
            final(self)@.degree == old(self)@.degree,
            final(self)@.points.len() == old(self)@.points.len(),
    {
        if index < self.control_points.len() {
            self.control_points.set(index, ControlPoint::new(x, y, weight));
            true
        } else {
            false
        }
    }

    /// The degree that the curve was made with.
    pub fn get_degree(&self) -> (degree: usize)
        ensures
            degree == self@.degree,
    {
        self.degree
    }

    /// A copy of the knots.
    pub fn knots(&self) -> (knots: Vec<Binary64>)
        ensures
            knots@ == self@.knots,
    {
        self.knots.clone()
    }
}

} // verus!
