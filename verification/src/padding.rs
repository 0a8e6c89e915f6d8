//! Space around content.
use vstd::prelude::*;

verus! {

/// An amount of space to pad for each side of a box.
#[derive(Clone, Copy, Debug, PartialEq, Eq, Structural)]
pub struct Padding {
    /// Top padding.
    pub top: u16,
    /// Right padding.
    pub right: u16,
    /// Bottom padding.
    pub bottom: u16,
    /// Left padding.
    pub left: u16,
}

impl Padding {
    /// Padding of zero on every side.
    pub open spec fn spec_zero() -> Padding {
        Padding { top: 0, right: 0, bottom: 0, left: 0 }
    }

    /// Padding of zero on every side.
    pub fn zero() -> (p: Padding)
        ensures
            p == Padding::spec_zero(),
    {
        Padding { top: 0, right: 0, bottom: 0, left: 0 }
    }

    /// The same padding on every side.
    pub open spec fn uniform(padding: u16) -> Padding {
        Padding { top: padding, right: padding, bottom: padding, left: padding }
    }

    /// The total vertical padding.
    pub open spec fn spec_vertical(self) -> int {
        self.top + self.bottom
    }

    /// The total horizontal padding.
    pub open spec fn spec_horizontal(self) -> int {
        self.left + self.right
    }

    /// Creates a [`Padding`] with the same value for each side.
    pub fn new(padding: u16) -> (p: Padding)
        ensures
            p == Padding::uniform(padding),
    {
        Padding { top: padding, right: padding, bottom: padding, left: padding }
    }

    /// The total vertical padding.
    pub fn vertical(self) -> (v: u32)
        ensures
            v == self.spec_vertical(),
    {
        self.top as u32 + self.bottom as u32
    }

    /// The total horizontal padding.
    pub fn horizontal(self) -> (h: u32)
        ensures
            h == self.spec_horizontal(),
    {
        self.left as u32 + self.right as u32
    }
}

} // verus!
