//! Points of the plane.
use vstd::prelude::*;

verus! {

/// A point of the plane. The plane is centred on (0, 0).
///
/// Each coordinate is the bit pattern of a double. Two points are equal when
/// their patterns are: positive and negative zero are different coordinates
/// here, and a NaN equals itself.
#[derive(Clone, Copy, Debug, PartialEq, Eq, Structural)]
#[must_use]
pub struct Point2D {
    /// The `x` coordinate, as a bit pattern.
    pub x: u64,
    /// The `y` coordinate, as a bit pattern.
    pub y: u64,
}

impl Point2D {
    /// The point (0, 0). The pattern of positive zero is the integer 0.
    pub fn zero() -> (p: Point2D)
        ensures
            p == (Point2D { x: 0, y: 0 }),
    {
        Point2D { x: 0, y: 0 }
    }

    /// The point (`x`, `y`). Every pattern is accepted, those of NaN and of
    /// the infinities too.
    pub fn new(x: u64, y: u64) -> (p: Point2D)
        ensures
            p == (Point2D { x, y }),
    {
        Point2D { x, y }
    }

    /// A copy of `self` with `x` replaced.
    pub fn set_x(self, x: u64) -> (p: Point2D)
        ensures
            p == (Point2D { x, y: self.y }),
    {
        Point2D { x, y: self.y }
    }

    /// A copy of `self` with `y` replaced.
    pub fn set_y(self, y: u64) -> (p: Point2D)
        ensures
            p == (Point2D { x: self.x, y }),
    {
        Point2D { x: self.x, y }
    }
}

} // verus!
