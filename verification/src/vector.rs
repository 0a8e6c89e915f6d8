//! Displacements.
use vstd::prelude::*;

verus! {

/// A displacement in two dimensions.
#[derive(Clone, Copy, Debug, PartialEq, Eq, Structural)]
pub struct Vector {
    /// The horizontal component.
    pub x: i32,
    /// The vertical component.
    pub y: i32,
}

impl Vector {
    /// Creates a new [`Vector`] with the given components.
    pub fn new(x: i32, y: i32) -> (v: Vector)
        ensures
            v == (Vector { x, y }),
    {
        Vector { x, y }
    }
}

} // verus!
