//! Sizing policies.
use vstd::prelude::*;

verus! {

/// The strategy used to fill space in one dimension.
#[derive(Clone, Copy, Debug, PartialEq, Eq, Structural)]
pub enum Length {
    /// Fill all the remaining space.
    Fill,
    /// Fill a portion of the remaining space relative to other elements:
    /// the weight of this element among those that fill.
    FillPortion(u16),
    /// Fill the least amount of space.
    Shrink,
    /// Fill a fixed amount of space.
    Units(u16),
}

impl Length {
    /// The weight with which this [`Length`] claims leftover space; `0` for
    /// a [`Length`] that does not fill.
    pub open spec fn spec_fill_factor(self) -> u16 {
        match self {
            Length::Fill => 1,
            Length::FillPortion(factor) => factor,
            Length::Shrink => 0,
            Length::Units(_) => 0,
        }
    }

    /// The number that stands for this [`Length`] in a fingerprint.
    pub open spec fn spec_code(self) -> u64 {
        match self {
            Length::Fill => 0,
            Length::FillPortion(factor) => (0x1_0000 + factor) as u64,
            Length::Shrink => 0x2_0000,
            Length::Units(units) => (0x3_0000 + units) as u64,
        }
    }

    /// The number that stands for this [`Length`] in a fingerprint.
    pub fn code(&self) -> (code: u64)
        ensures
            code == self.spec_code(),
    {
        match self {
            Length::Fill => 0,
            Length::FillPortion(factor) => 0x1_0000 + *factor as u64,
            Length::Shrink => 0x2_0000,
            Length::Units(units) => 0x3_0000 + *units as u64,
        }
    }

    /// Different lengths have different numbers.
    pub proof fn lemma_code_injective(a: Length, b: Length)
        ensures
            a.spec_code() == b.spec_code() <==> a == b,
    {
    }

    /// The weight with which this [`Length`] claims leftover space; `0` for
    /// a [`Length`] that does not fill.
    pub fn fill_factor(&self) -> (factor: u16)
        ensures
            factor == self.spec_fill_factor(),
    {
        match self {
            Length::Fill => 1,
            Length::FillPortion(factor) => *factor,
            Length::Shrink => 0,
            Length::Units(_) => 0,
        }
    }
}

} // verus!
