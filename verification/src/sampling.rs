//! Sampling of a curve at evenly spaced parameters.
//!
//! Every requested sample is filled: where the curve has no point at a
//! parameter, the first control point stands in for it.

use vstd::prelude::*;

use crate::arith::{
    count_to_binary64, difference, from_count, minus, over, product, quotient, times,
};
use crate::binary64::Binary64;
use crate::control_point::ControlPoint;
use crate::curve::{CurveView, NurbsCurve};
use crate::knots::{clamped_knots, lemma_knot_count};

verus! {

/// The number of samples that are taken when `requested` are asked for: at
/// least two.
pub open spec fn sample_count(requested: nat) -> nat {
    if requested < 2 {
        2
    } else {
        requested
    }
}

/// The distance between the parameters of two neighbouring samples out of
/// `count`.
pub open spec fn sample_step(count: nat) -> Binary64 {
    quotient(Binary64::spec_one(), difference(from_count(count), Binary64::spec_one()))
}

/// The parameter of the sample with index `i` out of `count`: `i` steps
/// from zero, but exactly one for the last sample.
pub open spec fn sample_parameter(count: nat, i: nat) -> Binary64 {
    if i + 1 == count {
        Binary64::spec_one()
    } else {
        product(from_count(i), sample_step(count))
    }
}

impl CurveView {
    /// Whether the curve can be sampled: it has more control points than
    /// its degree, and it has knots.
    pub open spec fn samplable(self) -> bool {
        self.points.len() >= self.degree + 1 && self.knots.len() > 0
    }

    /// The point that stands in where the curve has none: the first control
    /// point, or the origin with weight one for a curve without control
    /// points.
    pub open spec fn stand_in(self) -> ControlPoint {
        if self.points.len() > 0 {
            self.points[0]
        } else {
            ControlPoint::spec_origin()
        }
    }

    /// The sample at the parameter `u`: the point of the curve, or the
    /// stand-in where there is none.
    pub open spec fn sample(self, u: Binary64) -> ControlPoint {
        match self.evaluate(u) {
            Some(point) => point,
            None => self.stand_in(),
        }
    }

    /// The samples of the curve when `requested` are asked for: none for a
    /// curve that cannot be sampled, and else one for each of the evenly
    /// spaced parameters, from zero to exactly one.
    pub open spec fn generate_points(self, requested: nat) -> Seq<ControlPoint> {
        if self.samplable() {
            Seq::new(
                sample_count(requested),
                |i: int| self.sample(sample_parameter(sample_count(requested), i as nat)),
            )
        } else {
            Seq::empty()
        }
    }
}

/// The curve that is built from three sequences of coordinates and weights
/// by appending one control point for each index that all three have: its
/// knots are the clamped knots of these control points, and a curve without
/// control points has no knots.
pub open spec fn curve_of(
    xs: Seq<Binary64>,
    ys: Seq<Binary64>,
    weights: Seq<Binary64>,
    degree: nat,
) -> CurveView {
    let count = shortest(xs.len(), ys.len(), weights.len());
    CurveView {
        points: Seq::new(count, |i: int| ControlPoint { x: xs[i], y: ys[i], weight: weights[i] }),
        knots: if count == 0 {
            Seq::empty()
        } else {
            clamped_knots(count, degree)
        },
        degree,
    }
}

/// The least of three lengths.
pub open spec fn shortest(a: nat, b: nat, c: nat) -> nat {
    if a <= b && a <= c {
        a
    } else if b <= c {
        b
    } else {
        c
    }
}

/// The coordinates of the points, one point after the other: the first
/// coordinate of a point, then its second.
pub open spec fn interleaved(points: Seq<ControlPoint>) -> Seq<Binary64> {
    Seq::new(
        2 * points.len(),
        |k: int|
            if k % 2 == 0 {
                points[k / 2].x
            } else {
                points[k / 2].y
            },
    )
}

impl NurbsCurve {
    /// The sample at the parameter `u`: the point of the curve, or the
    /// first control point where the curve has no point there.
    pub fn sample(&self, u: Binary64) -> (point: ControlPoint)
        ensures
            point == self@.sample(u),
    {
        match self.evaluate(u) {
            Some(point) => point,
            None => {
                if self.control_points.len() > 0 {
                    self.control_points[0]
                } else {
                    ControlPoint::origin()
                }
            },
        }
    }

    /// Samples the curve at `num_points` evenly spaced parameters, and at
    /// two where fewer are asked for. The first parameter is zero and the
    /// last is exactly one.
    ///
    /// A curve with at most as many control points as its degree, or
    /// without knots, has no samples. Every other curve has exactly as many
    /// as were asked for, whatever its knots and weights.
    pub fn generate_points(&self, num_points: usize) -> (points: Vec<ControlPoint>)
        ensures
            points@ == self@.generate_points(num_points as nat),
            self@.samplable() ==> points@.len() == sample_count(num_points as nat),
            self@.samplable() && num_points >= 2 ==> points@.len() == num_points,
            !self@.samplable() ==> points@.len() == 0,
            self@.samplable() ==> points@[points@.len() - 1] == self@.sample(Binary64::spec_one()),
    {
        let mut points: Vec<ControlPoint> = Vec::new();
        if self.degree >= self.control_points.len() || self.knots.len() == 0 {
            assert(points@ =~= self@.generate_points(num_points as nat));
            return points;
        }
        let count: usize = if num_points < 2 {
            2
        } else {
            num_points
        };
        let step = over(Binary64::one(), minus(count_to_binary64(count), Binary64::one()));
        let mut i: usize = 0;
        while i < count
            invariant
                i <= count,
                count == sample_count(num_points as nat),
                self@.samplable(),
                step == sample_step(count as nat),
                points@.len() == i,
                forall|k: int|
                    0 <= k < i ==> points@[k] == self@.sample(
                        sample_parameter(count as nat, k as nat),
                    ),
            decreases count - i,
        {
            let u = if i == count - 1 {
                Binary64::one()
            } else {
                times(count_to_binary64(i), step)
            };
            let point = self.sample(u);
            points.push(point);
            i += 1;
        }
        assert(points@ =~= self@.generate_points(num_points as nat));
        points
    }
}

/// A curve with more control points than its degree and with knots has
/// exactly as many samples as are asked for, if at least two are asked
/// for. Neither the knots nor the weights can make a sample go missing.
pub proof fn lemma_sample_count(curve: CurveView, requested: nat)
    requires
        curve.points.len() >= curve.degree + 1,
        curve.knots.len() > 0,
        requested >= 2,
    ensures
        curve.generate_points(requested).len() == requested,
{
}

/// Appending a control point leaves a curve with knots. So a curve that
/// grows by appending alone can be sampled as soon as it has more control
/// points than its degree.
pub proof fn lemma_appended_has_knots(curve: CurveView, point: ControlPoint)
    ensures
        curve.appended(point).knots.len() >= 2,
        curve.appended(point).has_clamped_knots(),
        curve.degree <= curve.points.len() ==> curve.appended(point).samplable(),
{
    lemma_knot_count(curve.points.len() + 1, curve.degree);
}

/// The first sample is taken at the parameter that zero steps give, and
/// the last at exactly one.
pub proof fn lemma_sample_ends(curve: CurveView, requested: nat)
    requires
        curve.samplable(),
    ensures
        curve.generate_points(requested).first() == curve.sample(
            product(from_count(0), sample_step(sample_count(requested))),
        ),
        curve.generate_points(requested).last() == curve.sample(Binary64::spec_one()),
{
}

/// Lays the coordinates of the points out one after the other.
pub fn interleave(points: &Vec<ControlPoint>) -> (flat: Vec<Binary64>)
    ensures
        flat@ == interleaved(points@),
        flat@.len() == 2 * points@.len(),
{
    let mut flat: Vec<Binary64> = Vec::new();
    let mut i: usize = 0;
    while i < points.len()
        invariant
            i <= points@.len(),
            flat@.len() == 2 * i,
            forall|k: int|
                0 <= k < 2 * i ==> flat@[k] == if k % 2 == 0 {
                    points@[k / 2].x
                } else {
                    points@[k / 2].y
                },
        decreases points@.len() - i,
    {
        flat.push(points[i].x);
        flat.push(points[i].y);
        i += 1;
    }
    assert(flat@ =~= interleaved(points@));
    flat
}

/// Builds the curve of the given degree from three slices of coordinates
/// and weights, cut to the shortest of them, and samples it. The result
/// holds the coordinates of the samples, one sample after the other.
///
/// The number of control points is limited so that the number of knots is
/// a `usize`.
pub fn generate_nurbs_curve_points(
    control_points_x: &[Binary64],
    control_points_y: &[Binary64],
    weights: &[Binary64],
    degree: usize,
    num_points: usize,
) -> (flat: Vec<Binary64>)
    requires
        2 * shortest(control_points_x@.len(), control_points_y@.len(), weights@.len())
            <= usize::MAX,
    ensures
        flat@ == interleaved(
            curve_of(control_points_x@, control_points_y@, weights@, degree as nat).generate_points(
                num_points as nat,
            ),
        ),
        flat@.len() == 2 * curve_of(
            control_points_x@,
            control_points_y@,
            weights@,
            degree as nat,
        ).generate_points(num_points as nat).len(),
{
    let mut count: usize = control_points_x.len();
    if control_points_y.len() < count {
        count = control_points_y.len();
    }
    if weights.len() < count {
        count = weights.len();
    }
    let mut curve = NurbsCurve::new(degree);
    let mut i: usize = 0;
    while i < count
        invariant
            i <= count,
            count == shortest(control_points_x@.len(), control_points_y@.len(), weights@.len()),
            2 * count <= usize::MAX,
            curve@.degree == degree,
            curve@.points.len() == i,
            forall|k: int|
                0 <= k < i ==> curve@.points[k] == (ControlPoint {
                    x: control_points_x@[k],
                    y: control_points_y@[k],
                    weight: weights@[k],
                }),
            curve@.knots == if i == 0 {
                Seq::<Binary64>::empty()
            } else {
                clamped_knots(i as nat, degree as nat)
            },
        decreases count - i,
    {
        curve.add_control_point(
            ControlPoint::new(control_points_x[i], control_points_y[i], weights[i]),
        );
        i += 1;
    }
    proof {
        let built = curve_of(control_points_x@, control_points_y@, weights@, degree as nat);
        assert(curve@.points =~= built.points);
        assert(curve@ == built);
    }
    let points = curve.generate_points(num_points);
    interleave(&points)
}

} // verus!
