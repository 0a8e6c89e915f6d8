//! Amounts of space.
use crate::padding::Padding;
use crate::units::{clamp_len, len};
use vstd::prelude::*;

verus! {

/// An amount of space in two dimensions.
#[derive(Clone, Copy, Debug, PartialEq, Eq, Structural)]
pub struct Size {
    /// The width.
    pub width: u32,
    /// The height.
    pub height: u32,
}

impl Size {
    /// A [`Size`] with zero width and height.
    pub open spec fn spec_zero() -> Size {
        Size { width: 0, height: 0 }
    }

    /// A [`Size`] with zero width and height.
    pub fn zero() -> (s: Size)
        ensures
            s == Size::spec_zero(),
    {
        Size { width: 0, height: 0 }
    }

    /// `self` grown by `padding` on every side; a length that leaves the
    /// range of `u32` stays at its end.
    pub open spec fn spec_pad(self, padding: Padding) -> Size {
        Size {
            width: clamp_len(self.width + padding.spec_horizontal()),
            height: clamp_len(self.height + padding.spec_vertical()),
        }
    }

    /// Creates a new [`Size`] with the given width and height.
    pub fn new(width: u32, height: u32) -> (s: Size)
        ensures
            s == (Size { width, height }),
    {
        Size { width, height }
    }

    /// Increments the [`Size`] to account for the given padding.
    pub fn pad(&self, padding: Padding) -> (s: Size)
        ensures
            s == self.spec_pad(padding),
    {
        Size {
            width: len(self.width as u128 + padding.horizontal() as u128),
            height: len(self.height as u128 + padding.vertical() as u128),
        }
    }
}

} // verus!
