//! Positions.
use crate::units::{clamp_coord, coord};
use crate::vector::Vector;
use vstd::prelude::*;

verus! {

/// A position in two dimensions.
#[derive(Clone, Copy, Debug, PartialEq, Eq, Structural)]
pub struct Point {
    /// The horizontal coordinate.
    pub x: i32,
    /// The vertical coordinate.
    pub y: i32,
}

impl Point {
    /// The origin: `(0, 0)`.
    pub open spec fn spec_origin() -> Point {
        Point { x: 0, y: 0 }
    }

    /// The origin: `(0, 0)`.
    pub fn origin() -> (p: Point)
        ensures
            p == Point::spec_origin(),
    {
        Point { x: 0, y: 0 }
    }

    /// `self` moved by `by`; a coordinate that leaves the range of `i32`
    /// stays at its end.
    pub open spec fn spec_offset(self, by: Vector) -> Point {
        Point { x: clamp_coord(self.x + by.x), y: clamp_coord(self.y + by.y) }
    }

    /// Moving twice is moving by the sum, as long as no coordinate leaves
    /// the range of `i32` on the way.
    pub proof fn lemma_offset_composes(self, first: Vector, second: Vector)
        requires
            i32::MIN <= self.x + first.x <= i32::MAX,
            i32::MIN <= self.y + first.y <= i32::MAX,
            i32::MIN <= first.x + second.x <= i32::MAX,
            i32::MIN <= first.y + second.y <= i32::MAX,
        ensures
            self.spec_offset(first).spec_offset(second) == self.spec_offset(
                Vector { x: (first.x + second.x) as i32, y: (first.y + second.y) as i32 },
            ),
    {
    }

    /// Creates a new [`Point`] with the given coordinates.
    pub fn new(x: i32, y: i32) -> (p: Point)
        ensures
            p == (Point { x, y }),
    {
        Point { x, y }
    }

    /// Moves the [`Point`] by the given [`Vector`].
    pub fn offset(self, by: Vector) -> (p: Point)
        ensures
            p == self.spec_offset(by),
    {
        Point { x: coord(self.x as i64 + by.x as i64), y: coord(self.y as i64 + by.y as i64) }
    }
}

} // verus!
