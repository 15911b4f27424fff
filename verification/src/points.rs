//! Points of the signed-normalised plane.

use vstd::prelude::*;
use crate::continuous::{Angle, SNFloat, sn_circular};
use crate::trig::atan2_spec;

verus! {

/// A point of `[-1, 1] x [-1, 1]`: a pair of signed-normalised scalars.
/// The components are capped independently; the point is not normalised
/// in the euclidean sense.
#[derive(Clone, Copy, PartialEq, Eq, Structural, Debug)]
pub struct SNPoint {
    pub x: SNFloat,
    pub y: SNFloat,
}

impl SNPoint {
    pub open spec fn wf(self) -> bool {
        self.x.wf() && self.y.wf()
    }

    pub fn new(x: SNFloat, y: SNFloat) -> (r: SNPoint)
        requires
            x.wf(),
            y.wf(),
        ensures
            r.x == x,
            r.y == y,
            r.wf(),
    {
        SNPoint { x, y }
    }

    /// The origin, as a spec value.
    pub open spec fn spec_zero() -> SNPoint {
        SNPoint { x: SNFloat { value: 0 }, y: SNFloat { value: 0 } }
    }

    /// The origin.
    pub fn zero() -> (r: SNPoint)
        ensures
            r == SNPoint::spec_zero(),
            r.x.value == 0,
            r.y.value == 0,
            r.wf(),
    {
        SNPoint { x: SNFloat { value: 0 }, y: SNFloat { value: 0 } }
    }

    pub fn into_inner(self) -> (r: (SNFloat, SNFloat))
        ensures
            r.0 == self.x,
            r.1 == self.y,
    {
        (self.x, self.y)
    }

    /// The angle the point stands at, measured clockwise from the positive
    /// y-axis (the angle of the vector `(y, x)` in the trigonometric
    /// convention).
    pub fn to_angle(self) -> (r: Angle)
        requires
            self.wf(),
        ensures
            r.value == atan2_spec(self.x.value as int, self.y.value as int),
            r.wf(),
    {
        Angle { value: crate::trig::atan2_units(self.x.value as i64, self.y.value as i64) }
    }

    /// Component-wise wrapped sum, as `SNFloat::circular_add` on each axis.
    pub fn circular_add(self, other: SNPoint) -> (r: SNPoint)
        requires
            self.wf(),
            other.wf(),
        ensures
            r.x.value == sn_circular(self.x.value + other.x.value),
            r.y.value == sn_circular(self.y.value + other.y.value),
            r.wf(),
    {
        SNPoint { x: self.x.circular_add(other.x), y: self.y.circular_add(other.y) }
    }

    /// Component-wise negation.
    pub fn invert(self) -> (r: SNPoint)
        requires
            self.wf(),
        ensures
            r.x.value == -self.x.value as int,
            r.y.value == -self.y.value as int,
            r.wf(),
    {
        SNPoint { x: self.x.invert(), y: self.y.invert() }
    }
}

} // verus!
