//! The window of sizes that a layout may take.
use crate::length::Length;
use crate::padding::Padding;
use crate::size::Size;
use crate::units::{clamp_len, max, min, spec_max, spec_min};
use vstd::prelude::*;

verus! {

/// What a [`Limits`] holds: the smallest and the largest size allowed, and
/// the size that content is stretched to when it is smaller.
pub ghost struct LimitsView {
    /// The smallest size allowed.
    pub min: Size,
    /// The largest size allowed.
    pub max: Size,
    /// The size that smaller content is stretched to.
    pub fill: Size,
}

impl LimitsView {
    /// On both axes the minimum is at most the fill size, which is at most
    /// the maximum.
    pub open spec fn wf(self) -> bool {
        &&& self.min.width <= self.fill.width <= self.max.width
        &&& self.min.height <= self.fill.height <= self.max.height
    }

    /// Whether `size` lies between the minimum and the maximum on both axes.
    pub open spec fn contains(self, size: Size) -> bool {
        &&& self.min.width <= size.width <= self.max.width
        &&& self.min.height <= size.height <= self.max.height
    }

    /// No constraint at all.
    pub open spec fn none() -> LimitsView {
        LimitsView {
            min: Size { width: 0, height: 0 },
            max: Size { width: u32::MAX, height: u32::MAX },
            fill: Size { width: u32::MAX, height: u32::MAX },
        }
    }

    /// The window from `min` to `max`, with the maximum raised to the
    /// minimum where it lies below; content is stretched to the maximum.
    pub open spec fn new(min: Size, max: Size) -> LimitsView {
        let max = Size {
            width: spec_max(max.width as int, min.width as int) as u32,
            height: spec_max(max.height as int, min.height as int) as u32,
        };
        LimitsView { min, max, fill: max }
    }

    /// The window after a width policy is applied.
    pub open spec fn width(self, width: Length) -> LimitsView {
        match width {
            Length::Shrink => LimitsView {
                fill: Size { width: self.min.width, ..self.fill },
                ..self
            },
            Length::Fill | Length::FillPortion(_) => LimitsView {
                fill: Size {
                    width: spec_min(self.fill.width as int, self.max.width as int) as u32,
                    ..self.fill
                },
                ..self
            },
            Length::Units(units) => {
                let fixed = spec_max(
                    spec_min(units as int, self.max.width as int),
                    self.min.width as int,
                ) as u32;
                LimitsView {
                    min: Size { width: fixed, ..self.min },
                    max: Size { width: fixed, ..self.max },
                    fill: Size { width: fixed, ..self.fill },
                }
            },
        }
    }

    /// The window after a height policy is applied.
    pub open spec fn height(self, height: Length) -> LimitsView {
        match height {
            Length::Shrink => LimitsView {
                fill: Size { height: self.min.height, ..self.fill },
                ..self
            },
            Length::Fill | Length::FillPortion(_) => LimitsView {
                fill: Size {
                    height: spec_min(self.fill.height as int, self.max.height as int) as u32,
                    ..self.fill
                },
                ..self
            },
            Length::Units(units) => {
                let fixed = spec_max(
                    spec_min(units as int, self.max.height as int),
                    self.min.height as int,
                ) as u32;
                LimitsView {
                    min: Size { height: fixed, ..self.min },
                    max: Size { height: fixed, ..self.max },
                    fill: Size { height: fixed, ..self.fill },
                }
            },
        }
    }

    /// The window with its minimum width raised to `min_width`, as far as
    /// the maximum allows.
    pub open spec fn min_width(self, min_width: u32) -> LimitsView {
        let raised = spec_min(
            spec_max(self.min.width as int, min_width as int),
            self.max.width as int,
        ) as u32;
        LimitsView {
            min: Size { width: raised, ..self.min },
            fill: Size {
                width: spec_max(self.fill.width as int, raised as int) as u32,
                ..self.fill
            },
            ..self
        }
    }

    /// The window with its maximum width lowered to `max_width`, as far as
    /// the minimum allows.
    pub open spec fn max_width(self, max_width: u32) -> LimitsView {
        let lowered = spec_max(
            spec_min(self.max.width as int, max_width as int),
            self.min.width as int,
        ) as u32;
        LimitsView {
            max: Size { width: lowered, ..self.max },
            fill: Size {
                width: spec_min(self.fill.width as int, lowered as int) as u32,
                ..self.fill
            },
            ..self
        }
    }

    /// The window with its minimum height raised to `min_height`, as far as
    /// the maximum allows.
    pub open spec fn min_height(self, min_height: u32) -> LimitsView {
        let raised = spec_min(
            spec_max(self.min.height as int, min_height as int),
            self.max.height as int,
        ) as u32;
        LimitsView {
            min: Size { height: raised, ..self.min },
            fill: Size {
                height: spec_max(self.fill.height as int, raised as int) as u32,
                ..self.fill
            },
            ..self
        }
    }

    /// The window with its maximum height lowered to `max_height`, as far as
    /// the minimum allows.
    pub open spec fn max_height(self, max_height: u32) -> LimitsView {
        let lowered = spec_max(
            spec_min(self.max.height as int, max_height as int),
            self.min.height as int,
        ) as u32;
        LimitsView {
            max: Size { height: lowered, ..self.max },
            fill: Size {
                height: spec_min(self.fill.height as int, lowered as int) as u32,
                ..self.fill
            },
            ..self
        }
    }

    /// The window with `size` taken off every bound, none going below zero.
    pub open spec fn shrink(self, size: Size) -> LimitsView {
        LimitsView {
            min: Size {
                width: clamp_len(self.min.width - size.width),
                height: clamp_len(self.min.height - size.height),
            },
            max: Size {
                width: clamp_len(self.max.width - size.width),
                height: clamp_len(self.max.height - size.height),
            },
            fill: Size {
                width: clamp_len(self.fill.width - size.width),
                height: clamp_len(self.fill.height - size.height),
            },
        }
    }

    /// The window left for content inside `padding`.
    pub open spec fn pad(self, padding: Padding) -> LimitsView {
        self.shrink(
            Size {
                width: padding.spec_horizontal() as u32,
                height: padding.spec_vertical() as u32,
            },
        )
    }

    /// The window without its minimum.
    pub open spec fn loose(self) -> LimitsView {
        LimitsView { min: Size { width: 0, height: 0 }, ..self }
    }

    /// The size that content of size `intrinsic` takes in the window: cut
    /// down to the maximum, then stretched to the fill size.
    pub open spec fn resolve(self, intrinsic: Size) -> Size {
        Size {
            width: spec_max(
                spec_min(intrinsic.width as int, self.max.width as int),
                self.fill.width as int,
            ) as u32,
            height: spec_max(
                spec_min(intrinsic.height as int, self.max.height as int),
                self.fill.height as int,
            ) as u32,
        }
    }

    /// The size nearest to `size` that the window contains.
    pub open spec fn clamp(self, size: Size) -> Size {
        Size {
            width: spec_max(
                spec_min(size.width as int, self.max.width as int),
                self.min.width as int,
            ) as u32,
            height: spec_max(
                spec_min(size.height as int, self.max.height as int),
                self.min.height as int,
            ) as u32,
        }
    }
}

/// A new window has its minimum at most its maximum, whatever it is made
/// of.
pub proof fn lemma_new_is_wf(min: Size, max: Size)
    ensures
        LimitsView::none().wf(),
        LimitsView::new(min, max).wf(),
        min.width <= max.width && min.height <= max.height ==> LimitsView::new(min, max).max
            == max,
{
}

/// Every transformation of a window keeps the minimum at most the maximum.
pub proof fn lemma_transformations_keep_wf(
    limits: LimitsView,
    length: Length,
    bound: u32,
    size: Size,
    padding: Padding,
)
    requires
        limits.wf(),
    ensures
        limits.width(length).wf(),
        limits.height(length).wf(),
        limits.min_width(bound).wf(),
        limits.max_width(bound).wf(),
        limits.min_height(bound).wf(),
        limits.max_height(bound).wf(),
        limits.shrink(size).wf(),
        limits.pad(padding).wf(),
        limits.loose().wf(),
{
}

impl LimitsView {
    /// Whether every size that this window contains, `outer` contains too.
    pub open spec fn within(self, outer: LimitsView) -> bool {
        &&& outer.min.width <= self.min.width
        &&& self.max.width <= outer.max.width
        &&& outer.min.height <= self.min.height
        &&& self.max.height <= outer.max.height
    }
}

/// A policy or a bound only narrows a window: a size that fits afterwards
/// fitted before.
pub proof fn lemma_narrowing(limits: LimitsView, length: Length, bound: u32)
    requires
        limits.wf(),
    ensures
        limits.width(length).within(limits),
        limits.height(length).within(limits),
        limits.min_width(bound).within(limits),
        limits.max_width(bound).within(limits),
        limits.min_height(bound).within(limits),
        limits.max_height(bound).within(limits),
{
}

/// A resolved size lies in the window, whatever the content's own size.
pub proof fn lemma_resolve_within(limits: LimitsView, intrinsic: Size)
    requires
        limits.wf(),
    ensures
        limits.contains(limits.resolve(intrinsic)),
        limits.contains(limits.clamp(intrinsic)),
{
}

/// A set of size constraints for layouting.
#[derive(Clone, Copy, Debug)]
pub struct Limits {
    min: Size,
    max: Size,
    fill: Size,
}

impl View for Limits {
    type V = LimitsView;

    closed spec fn view(&self) -> LimitsView {
        LimitsView { min: self.min, max: self.max, fill: self.fill }
    }
}

impl Limits {
    /// Every [`Limits`] that code can hold is well formed.
    #[verifier::type_invariant]
    pub open spec fn well_formed(self) -> bool {
        self@.wf()
    }

    /// No limits.
    pub fn none() -> (l: Limits)
        ensures
            l@ == LimitsView::none(),
    {
        Limits {
            min: Size { width: 0, height: 0 },
            max: Size { width: u32::MAX, height: u32::MAX },
            fill: Size { width: u32::MAX, height: u32::MAX },
        }
    }

    /// Creates new [`Limits`] with the given minimum and maximum [`Size`].
    pub fn new(min: Size, max: Size) -> (l: Limits)
        ensures
            l@ == LimitsView::new(min, max),
    {
        let max = Size { width: self::max(max.width, min.width), height: self::max(max.height, min.height) };
        Limits { min, max, fill: max }
    }

    /// Returns the minimum [`Size`] of the [`Limits`].
    pub fn min(&self) -> (s: Size)
        ensures
            s == self@.min,
    {
        self.min
    }

    /// Returns the maximum [`Size`] of the [`Limits`].
    pub fn max(&self) -> (s: Size)
        ensures
            s == self@.max,
    {
        self.max
    }

    /// Returns the fill [`Size`] of the [`Limits`].
    pub fn fill(&self) -> (s: Size)
        ensures
            s == self@.fill,
    {
        self.fill
    }

    /// Applies a width constraint to the current [`Limits`].
    pub fn width(self, width: Length) -> (l: Limits)
        ensures
            l@ == self@.width(width),
    {
        proof {
            use_type_invariant(self);
        }
        match width {
            Length::Shrink => Limits {
                min: self.min,
                max: self.max,
                fill: Size { width: self.min.width, height: self.fill.height },
            },
            Length::Fill | Length::FillPortion(_) => Limits {
                min: self.min,
                max: self.max,
                fill: Size { width: min(self.fill.width, self.max.width), height: self.fill.height },
            },
            Length::Units(units) => {
                let fixed = max(min(units as u32, self.max.width), self.min.width);
                Limits {
                    min: Size { width: fixed, height: self.min.height },
                    max: Size { width: fixed, height: self.max.height },
                    fill: Size { width: fixed, height: self.fill.height },
                }
            },
        }
    }

    /// Applies a height constraint to the current [`Limits`].
    pub fn height(self, height: Length) -> (l: Limits)
        ensures
            l@ == self@.height(height),
    {
        proof {
            use_type_invariant(self);
        }
        match height {
            Length::Shrink => Limits {
                min: self.min,
                max: self.max,
                fill: Size { width: self.fill.width, height: self.min.height },
            },
            Length::Fill | Length::FillPortion(_) => Limits {
                min: self.min,
                max: self.max,
                fill: Size { width: self.fill.width, height: min(self.fill.height, self.max.height) },
            },
            Length::Units(units) => {
                let fixed = max(min(units as u32, self.max.height), self.min.height);
                Limits {
                    min: Size { width: self.min.width, height: fixed },
                    max: Size { width: self.max.width, height: fixed },
                    fill: Size { width: self.fill.width, height: fixed },
                }
            },
        }
    }

    /// Applies a minimum width constraint to the current [`Limits`].
    pub fn min_width(self, min_width: u32) -> (l: Limits)
        ensures
            l@ == self@.min_width(min_width),
    {
        proof {
            use_type_invariant(self);
        }
        let raised = min(max(self.min.width, min_width), self.max.width);
        Limits {
            min: Size { width: raised, height: self.min.height },
            max: self.max,
            fill: Size { width: max(self.fill.width, raised), height: self.fill.height },
        }
    }

    /// Applies a maximum width constraint to the current [`Limits`].
    pub fn max_width(self, max_width: u32) -> (l: Limits)
        ensures
            l@ == self@.max_width(max_width),
    {
        proof {
            use_type_invariant(self);
        }
        let lowered = max(min(self.max.width, max_width), self.min.width);
        Limits {
            min: self.min,
            max: Size { width: lowered, height: self.max.height },
            fill: Size { width: min(self.fill.width, lowered), height: self.fill.height },
        }
    }

    /// Applies a minimum height constraint to the current [`Limits`].
    pub fn min_height(self, min_height: u32) -> (l: Limits)
        ensures
            l@ == self@.min_height(min_height),
    {
        proof {
            use_type_invariant(self);
        }
        let raised = min(max(self.min.height, min_height), self.max.height);
        Limits {
            min: Size { width: self.min.width, height: raised },
            max: self.max,
            fill: Size { width: self.fill.width, height: max(self.fill.height, raised) },
        }
    }

    /// Applies a maximum height constraint to the current [`Limits`].
    pub fn max_height(self, max_height: u32) -> (l: Limits)
        ensures
            l@ == self@.max_height(max_height),
    {
        proof {
            use_type_invariant(self);
        }
        let lowered = max(min(self.max.height, max_height), self.min.height);
        Limits {
            min: self.min,
            max: Size { width: self.max.width, height: lowered },
            fill: Size { width: self.fill.width, height: min(self.fill.height, lowered) },
        }
    }

    /// Shrinks the current [`Limits`] to account for the given padding.
    pub fn pad(&self, padding: Padding) -> (l: Limits)
        ensures
            l@ == self@.pad(padding),
    {
        self.shrink(Size { width: padding.horizontal(), height: padding.vertical() })
    }

    /// Shrinks the current [`Limits`] by the given [`Size`].
    pub fn shrink(&self, size: Size) -> (l: Limits)
        ensures
            l@ == self@.shrink(size),
    {
        proof {
            use_type_invariant(self);
        }
        Limits {
            min: Size {
                width: self.min.width.saturating_sub(size.width),
                height: self.min.height.saturating_sub(size.height),
            },
            max: Size {
                width: self.max.width.saturating_sub(size.width),
                height: self.max.height.saturating_sub(size.height),
            },
            fill: Size {
                width: self.fill.width.saturating_sub(size.width),
                height: self.fill.height.saturating_sub(size.height),
            },
        }
    }

    /// Removes the minimum width and height constraints.
    pub fn loose(&self) -> (l: Limits)
        ensures
            l@ == self@.loose(),
    {
        proof {
            use_type_invariant(self);
        }
        Limits { min: Size { width: 0, height: 0 }, max: self.max, fill: self.fill }
    }

    /// Computes the resulting [`Size`] that fits the [`Limits`] given the
    /// intrinsic size of some content.
    pub fn resolve(&self, intrinsic_size: Size) -> (s: Size)
        ensures
            s == self@.resolve(intrinsic_size),
            self@.contains(s),
    {
        proof {
            use_type_invariant(self);
        }
        Size {
            width: max(min(intrinsic_size.width, self.max.width), self.fill.width),
            height: max(min(intrinsic_size.height, self.max.height), self.fill.height),
        }
    }

    /// The [`Size`] nearest to `size` that lies within the [`Limits`].
    pub fn clamp(&self, size: Size) -> (s: Size)
        ensures
            s == self@.clamp(size),
            self@.contains(s),
    {
        proof {
            use_type_invariant(self);
        }
        Size {
            width: max(min(size.width, self.max.width), self.min.width),
            height: max(min(size.height, self.max.height), self.min.height),
        }
    }
}

} // verus!
