//! Axis-aligned boxes.
use crate::point::Point;
use crate::size::Size;
use vstd::prelude::*;

verus! {

/// A rectangle: the position of its top-left corner and its size.
#[derive(Clone, Copy, Debug, PartialEq, Eq, Structural)]
pub struct Rectangle {
    /// X coordinate of the top-left corner.
    pub x: i32,
    /// Y coordinate of the top-left corner.
    pub y: i32,
    /// Width of the rectangle.
    pub width: u32,
    /// Height of the rectangle.
    pub height: u32,
}

impl Rectangle {
    /// The rectangle with its top-left corner at `top_left` and the given size.
    pub open spec fn spec_new(top_left: Point, size: Size) -> Rectangle {
        Rectangle { x: top_left.x, y: top_left.y, width: size.width, height: size.height }
    }

    /// The position of the top-left corner.
    pub open spec fn spec_position(self) -> Point {
        Point { x: self.x, y: self.y }
    }

    /// The size of the rectangle.
    pub open spec fn spec_size(self) -> Size {
        Size { width: self.width, height: self.height }
    }

    /// Whether `point` lies inside the rectangle: the left and top edges
    /// belong to it, the right and bottom edges do not.
    pub open spec fn spec_contains(self, point: Point) -> bool {
        &&& self.x <= point.x < self.x + self.width
        &&& self.y <= point.y < self.y + self.height
    }

    /// Creates a new [`Rectangle`] with its top-left corner in the given
    /// [`Point`] and with the provided [`Size`].
    pub fn new(top_left: Point, size: Size) -> (r: Rectangle)
        ensures
            r == Rectangle::spec_new(top_left, size),
    {
        Rectangle { x: top_left.x, y: top_left.y, width: size.width, height: size.height }
    }

    /// Creates a new [`Rectangle`] with its top-left corner at the origin
    /// and with the provided [`Size`].
    pub fn with_size(size: Size) -> (r: Rectangle)
        ensures
            r == Rectangle::spec_new(Point::spec_origin(), size),
    {
        Rectangle { x: 0, y: 0, width: size.width, height: size.height }
    }

    /// The position of the top-left corner of the [`Rectangle`].
    pub fn position(&self) -> (p: Point)
        ensures
            p == self.spec_position(),
    {
        Point { x: self.x, y: self.y }
    }

    /// The [`Size`] of the [`Rectangle`].
    pub fn size(&self) -> (s: Size)
        ensures
            s == self.spec_size(),
    {
        Size { width: self.width, height: self.height }
    }

    /// Returns true if the given [`Point`] is contained in the [`Rectangle`].
    pub fn contains(&self, point: Point) -> (inside: bool)
        ensures
            inside == self.spec_contains(point),
    {
        self.x <= point.x && (point.x as i64) < self.x as i64 + self.width as i64 && self.y
            <= point.y && (point.y as i64) < self.y as i64 + self.height as i64
    }
}

} // verus!
