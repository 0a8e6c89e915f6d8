//! Alignment of content inside a box.
use vstd::prelude::*;

verus! {

/// Alignment on one axis of a container.
#[derive(Clone, Copy, Debug, PartialEq, Eq, Structural)]
pub enum Alignment {
    /// Align at the start of the axis.
    Start,
    /// Align at the center of the axis.
    Center,
    /// Align at the end of the axis.
    End,
    /// Stretch over the axis.
    Fill,
}

/// The horizontal alignment of some resource.
#[derive(Clone, Copy, Debug, PartialEq, Eq, Structural)]
pub enum Horizontal {
    /// Align left.
    Left,
    /// Horizontally centered.
    Center,
    /// Align right.
    Right,
}

/// The vertical alignment of some resource.
#[derive(Clone, Copy, Debug, PartialEq, Eq, Structural)]
pub enum Vertical {
    /// Align top.
    Top,
    /// Vertically centered.
    Center,
    /// Align bottom.
    Bottom,
}

impl Alignment {
    /// The alignment on the horizontal axis that `horizontal` asks for.
    pub open spec fn spec_horizontal(horizontal: Horizontal) -> Alignment {
        match horizontal {
            Horizontal::Left => Alignment::Start,
            Horizontal::Center => Alignment::Center,
            Horizontal::Right => Alignment::End,
        }
    }

    /// The alignment on the vertical axis that `vertical` asks for.
    pub open spec fn spec_vertical(vertical: Vertical) -> Alignment {
        match vertical {
            Vertical::Top => Alignment::Start,
            Vertical::Center => Alignment::Center,
            Vertical::Bottom => Alignment::End,
        }
    }

    /// The alignment on the horizontal axis that `horizontal` asks for.
    pub fn horizontal(horizontal: Horizontal) -> (alignment: Alignment)
        ensures
            alignment == Alignment::spec_horizontal(horizontal),
    {
        match horizontal {
            Horizontal::Left => Alignment::Start,
            Horizontal::Center => Alignment::Center,
            Horizontal::Right => Alignment::End,
        }
    }

    /// The alignment on the vertical axis that `vertical` asks for.
    pub fn vertical(vertical: Vertical) -> (alignment: Alignment)
        ensures
            alignment == Alignment::spec_vertical(vertical),
    {
        match vertical {
            Vertical::Top => Alignment::Start,
            Vertical::Center => Alignment::Center,
            Vertical::Bottom => Alignment::End,
        }
    }

    /// The number that stands for this [`Alignment`] in a fingerprint.
    pub open spec fn spec_code(self) -> u64 {
        match self {
            Alignment::Start => 0,
            Alignment::Center => 1,
            Alignment::End => 2,
            Alignment::Fill => 3,
        }
    }

    /// Different alignments have different numbers.
    pub proof fn lemma_code_injective(a: Alignment, b: Alignment)
        ensures
            a.spec_code() == b.spec_code() <==> a == b,
    {
    }

    /// Different sides ask for different alignments.
    pub proof fn lemma_sides_injective(a: Horizontal, b: Horizontal, c: Vertical, d: Vertical)
        ensures
            Alignment::spec_horizontal(a) == Alignment::spec_horizontal(b) <==> a == b,
            Alignment::spec_vertical(c) == Alignment::spec_vertical(d) <==> c == d,
    {
    }

    /// The number that stands for this [`Alignment`] in a fingerprint.
    pub fn code(&self) -> (code: u64)
        ensures
            code == self.spec_code(),
    {
        match self {
            Alignment::Start => 0,
            Alignment::Center => 1,
            Alignment::End => 2,
            Alignment::Fill => 3,
        }
    }
}

} // verus!
