//! What the core asks of a renderer, and what it hands to one.
//!
//! A renderer measures text for the layout pass and consumes the list of
//! [`Primitive`]s that the draw pass produces. How a primitive is put on a
//! surface, and what a [`Style`] looks like, is the renderer's business.
use crate::alignment::{Horizontal, Vertical};
use crate::rectangle::Rectangle;
use crate::size::Size;
use crate::units::spec_min;
use vstd::prelude::*;
use vstd::string::StringSliceAdditionalSpecFns;
use vstd::utf8::encode_utf8;

verus! {

/// A color: red, green, blue and alpha, each from 0 to 255.
#[derive(Clone, Copy, Debug, PartialEq, Eq, Structural)]
pub struct Color {
    /// Red component.
    pub r: u8,
    /// Green component.
    pub g: u8,
    /// Blue component.
    pub b: u8,
    /// Transparency.
    pub a: u8,
}

/// A font.
#[derive(Clone, Copy, Debug, PartialEq, Eq, Structural)]
pub enum Font {
    /// The default font of the renderer.
    Default,
    /// A font that the renderer knows by number.
    External(u32),
}

impl Font {
    /// The number that stands for this [`Font`] in a fingerprint.
    pub open spec fn spec_code(self) -> u64 {
        match self {
            Font::Default => 0,
            Font::External(number) => (number + 1) as u64,
        }
    }

    /// The number that stands for this [`Font`] in a fingerprint.
    pub fn code(&self) -> (code: u64)
        ensures
            code == self.spec_code(),
    {
        match self {
            Font::Default => 0,
            Font::External(number) => *number as u64 + 1,
        }
    }

    /// Different fonts have different numbers.
    pub proof fn lemma_code_injective(a: Font, b: Font)
        ensures
            a.spec_code() == b.spec_code() <==> a == b,
    {
    }
}

/// An entry of the renderer's style table.
#[derive(Clone, Copy, Debug, PartialEq, Eq, Structural)]
pub struct Style(pub u32);

/// The values that a draw pass starts from.
#[derive(Clone, Copy, Debug, PartialEq, Eq, Structural)]
pub struct Defaults {
    /// The color of text that sets none of its own.
    pub text_color: Color,
}

/// A drawing command.
#[derive(Debug)]
pub enum Primitive {
    /// A region that stays empty.
    Space {
        /// The bounds of the region.
        bounds: Rectangle,
    },
    /// A run of text.
    Text {
        /// The contents of the text.
        content: String,
        /// The bounds of the text.
        bounds: Rectangle,
        /// The color of the text.
        color: Color,
        /// The size of the text.
        size: u16,
        /// The font of the text.
        font: Font,
        /// The horizontal alignment of the text.
        horizontal_alignment: Horizontal,
        /// The vertical alignment of the text.
        vertical_alignment: Vertical,
    },
    /// The box of a checkbox; its label follows as a text.
    Checkbox {
        /// The bounds of the box.
        bounds: Rectangle,
        /// Whether the box is checked.
        is_checked: bool,
        /// Whether the cursor is over the checkbox.
        is_mouse_over: bool,
        /// The style of the box.
        style: Style,
    },
    /// A progress bar.
    ProgressBar {
        /// The bounds of the bar.
        bounds: Rectangle,
        /// The value at which the bar is empty.
        start: i32,
        /// The value at which the bar is full.
        end: i32,
        /// The value shown.
        value: i32,
        /// The style of the bar.
        style: Style,
    },
    /// The background of a container; its content follows.
    Container {
        /// The bounds of the container.
        bounds: Rectangle,
        /// The style of the container.
        style: Style,
    },
}

/// What a [`Primitive`] holds.
pub ghost enum PrimitiveView {
    /// A region that stays empty.
    Space { bounds: Rectangle },
    /// A run of text.
    Text {
        content: Seq<char>,
        bounds: Rectangle,
        color: Color,
        size: u16,
        font: Font,
        horizontal_alignment: Horizontal,
        vertical_alignment: Vertical,
    },
    /// The box of a checkbox.
    Checkbox { bounds: Rectangle, is_checked: bool, is_mouse_over: bool, style: Style },
    /// A progress bar.
    ProgressBar { bounds: Rectangle, start: i32, end: i32, value: i32, style: Style },
    /// The background of a container.
    Container { bounds: Rectangle, style: Style },
}

impl View for Primitive {
    type V = PrimitiveView;

    open spec fn view(&self) -> PrimitiveView {
        match self {
            Primitive::Space { bounds } => PrimitiveView::Space { bounds: *bounds },
            Primitive::Text {
                content,
                bounds,
                color,
                size,
                font,
                horizontal_alignment,
                vertical_alignment,
            } => PrimitiveView::Text {
                content: content@,
                bounds: *bounds,
                color: *color,
                size: *size,
                font: *font,
                horizontal_alignment: *horizontal_alignment,
                vertical_alignment: *vertical_alignment,
            },
            Primitive::Checkbox { bounds, is_checked, is_mouse_over, style } => PrimitiveView::Checkbox {
                bounds: *bounds,
                is_checked: *is_checked,
                is_mouse_over: *is_mouse_over,
                style: *style,
            },
            Primitive::ProgressBar { bounds, start, end, value, style } => PrimitiveView::ProgressBar {
                bounds: *bounds,
                start: *start,
                end: *end,
                value: *value,
                style: *style,
            },
            Primitive::Container { bounds, style } => PrimitiveView::Container {
                bounds: *bounds,
                style: *style,
            },
        }
    }
}

/// What each of the given primitives holds.
pub open spec fn views(primitives: Seq<Primitive>) -> Seq<PrimitiveView> {
    Seq::new(primitives.len(), |i: int| primitives[i]@)
}

/// What two lists of primitives hold together is what the first holds,
/// then what the second holds.
pub proof fn lemma_views_concat(first: Seq<Primitive>, second: Seq<Primitive>)
    ensures
        views(first + second) == views(first) + views(second),
{
    assert(views(first + second) =~= views(first) + views(second));
}

/// Appends a primitive to a list of them.
pub fn emit(primitives: &mut Vec<Primitive>, primitive: Primitive)
    ensures
        views(final(primitives)@) == views(old(primitives)@).push(primitive@),
{
    primitives.push(primitive);
    assert(views(primitives@) =~= views(old(primitives)@).push(primitive@));
}

/// The part of a renderer that a layout depends on.
///
/// What a renderer answers is a function of what it is asked: the same
/// renderer measures the same text the same way, so a layout is determined
/// by the widget, the renderer and the limits.
pub trait Renderer {
    /// The text size used where a widget sets none.
    spec fn spec_default_size(&self) -> u16;

    /// The space that `content` takes at `size` in `font`, inside `bounds`.
    spec fn spec_measure(&self, content: Seq<char>, size: u16, font: Font, bounds: Size) -> Size;

    /// The text size used where a widget sets none.
    fn default_size(&self) -> (size: u16)
        ensures
            size == self.spec_default_size(),
    ;

    /// Measures `content` at `size` in `font`, inside `bounds`.
    fn measure(&self, content: &str, size: u16, font: Font, bounds: Size) -> (measured: Size)
        ensures
            measured == self.spec_measure(content@, size, font, bounds),
    ;
}

/// A renderer that measures every text as empty.
///
/// It is useful for laying out trees that hold no text, and for tests.
#[derive(Clone, Copy, Debug)]
pub struct Null;

impl Renderer for Null {
    open spec fn spec_default_size(&self) -> u16 {
        20
    }

    open spec fn spec_measure(&self, content: Seq<char>, size: u16, font: Font, bounds: Size) -> Size {
        Size { width: 0, height: 20 }
    }

    fn default_size(&self) -> (size: u16) {
        20
    }

    fn measure(&self, content: &str, size: u16, font: Font, bounds: Size) -> (measured: Size) {
        Size { width: 0, height: 20 }
    }
}

/// A renderer that measures every byte of a text as equally wide.
///
/// A text is as high as its size and `advance` units wide for each byte of
/// its UTF-8 form, but no wider than the bounds it is measured in.
#[derive(Clone, Copy, Debug)]
pub struct Monospace {
    /// The width of one byte of text.
    pub advance: u16,
    /// The text size used where a widget sets none.
    pub default_size: u16,
}

impl Renderer for Monospace {
    open spec fn spec_default_size(&self) -> u16 {
        self.default_size
    }

    open spec fn spec_measure(&self, content: Seq<char>, size: u16, font: Font, bounds: Size) -> Size {
        Size {
            width: spec_min(self.advance * encode_utf8(content).len(), bounds.width as int) as u32,
            height: size as u32,
        }
    }

    fn default_size(&self) -> (size: u16) {
        self.default_size
    }

    fn measure(&self, content: &str, size: u16, font: Font, bounds: Size) -> (measured: Size) {
        let bytes = content.as_bytes().len();
        assert(bytes == encode_utf8(content@).len());
        assert(self.advance * bytes <= 0xffff * 0xffff_ffff_ffff_ffff) by (nonlinear_arith)
            requires
                self.advance <= 0xffff,
                bytes <= 0xffff_ffff_ffff_ffff,
        ;
        let wide: u128 = self.advance as u128 * bytes as u128;
        let width = if wide <= bounds.width as u128 {
            wide as u32
        } else {
            bounds.width
        };
        Size { width, height: size as u32 }
    }
}

} // verus!
