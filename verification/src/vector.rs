//! Vectors: a point of origin and an offset.
use vstd::prelude::*;
use crate::point::Point2D;

verus! {

/// A directed segment of the plane.
///
/// `target` is the offset from `origin` to the vector's end. Whoever holds
/// an absolute end point subtracts the origin before handing it over.
#[derive(Clone, Copy, Debug, PartialEq, Eq, Structural)]
#[must_use]
pub struct Vector2D {
    /// Where the vector starts.
    pub origin: Point2D,
    /// Where the vector ends, as an offset from `origin`.
    pub target: Point2D,
}

impl Vector2D {
    /// The vector at (0, 0) with the offset (0, 0).
    pub fn zero() -> (v: Vector2D)
        ensures
            v.origin == (Point2D { x: 0, y: 0 }),
            v.target == (Point2D { x: 0, y: 0 }),
    {
        Vector2D { origin: Point2D::zero(), target: Point2D::zero() }
    }

    /// The vector of length zero at `origin`: its offset is (0, 0) wherever
    /// it starts.
    pub fn null(origin: Point2D) -> (v: Vector2D)
        ensures
            v.origin == origin,
            v.target == (Point2D { x: 0, y: 0 }),
    {
        Vector2D { origin, target: Point2D::zero() }
    }

    /// The vector at `origin` with the offset `target`, stored as given.
    pub fn new(origin: Point2D, target: Point2D) -> (v: Vector2D)
        ensures
            v.origin == origin,
            v.target == target,
    {
        Vector2D { origin, target }
    }

    /// A copy of `self` with `origin` replaced. The offset stays, so the
    /// vector's end moves with the new origin.
    pub fn set_origin(self, origin: Point2D) -> (v: Vector2D)
        ensures
            v.origin == origin,
            v.target == self.target,
    {
        Vector2D { origin, target: self.target }
    }

    /// A copy of `self` with the offset replaced by `target`. The origin
    /// stays.
    pub fn set_target(self, target: Point2D) -> (v: Vector2D)
        ensures
            v.origin == self.origin,
            v.target == target,
    {
        Vector2D { origin: self.origin, target }
    }
}

} // verus!
