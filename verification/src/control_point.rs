//! Weighted points of the plane.

use vstd::prelude::*;

use crate::binary64::Binary64;

verus! {

/// A point of the plane in homogeneous form: two coordinates and a weight.
///
/// Any weight is accepted. A curve is well defined where the weights are
/// positive; other weights may leave parts of it without a point.
#[derive(Clone, Copy, Debug)]
pub struct ControlPoint {
    pub x: Binary64,
    pub y: Binary64,
    pub weight: Binary64,
}

impl ControlPoint {
    /// The origin, with weight one.
    pub open spec fn spec_origin() -> ControlPoint {
        ControlPoint { x: Binary64::spec_zero(), y: Binary64::spec_zero(), weight: Binary64::spec_one() }
    }

    pub fn new(x: Binary64, y: Binary64, weight: Binary64) -> (point: ControlPoint)
        ensures
            point == (ControlPoint { x, y, weight }),
    {
        ControlPoint { x, y, weight }
    }

    #[verifier::when_used_as_spec(spec_origin)]
    pub fn origin() -> (point: ControlPoint)
        ensures
            point == Self::spec_origin(),
    {
        ControlPoint { x: Binary64::zero(), y: Binary64::zero(), weight: Binary64::one() }
    }

    pub fn x(&self) -> (x: Binary64)
        ensures
            x == self.x,
    {
        self.x
    }

    pub fn y(&self) -> (y: Binary64)
        ensures
            y == self.y,
    {
        self.y
    }

    pub fn weight(&self) -> (weight: Binary64)
        ensures
            weight == self.weight,
    {
        self.weight
    }

    pub fn set_x(&mut self, x: Binary64)
        ensures
            *final(self) == (ControlPoint { x, ..*old(self) }),
    {
        self.x = x;
    }

    pub fn set_y(&mut self, y: Binary64)
        ensures
            *final(self) == (ControlPoint { y, ..*old(self) }),
    {
        self.y = y;
    }

    pub fn set_weight(&mut self, weight: Binary64)
        ensures
            *final(self) == (ControlPoint { weight, ..*old(self) }),
    {
        self.weight = weight;
    }
}

} // verus!
