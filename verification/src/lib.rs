//! Evaluation of NURBS curves in the plane.
//!
//! A curve is given by weighted control points and a degree. Its knots are
//! built from the number of control points, its points are rational
//! combinations of the control points under the B-spline basis functions,
//! and it can be sampled at evenly spaced parameters.
//!
//! Numbers are binary64 values held by their bit pattern. Comparisons are
//! decided on the bit patterns; sums, differences, products and quotients
//! are rounded to nearest, ties to even.

pub mod arith;
pub mod basis;
pub mod binary64;
pub mod control_point;
pub mod curve;
pub mod evaluate;
pub mod knots;
pub mod sampling;
pub mod span;

pub use crate::binary64::Binary64;
pub use crate::control_point::ControlPoint;
pub use crate::curve::NurbsCurve;
pub use crate::sampling::generate_nurbs_curve_points;
