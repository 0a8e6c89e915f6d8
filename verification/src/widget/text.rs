//! Write some text for your users to read.
use crate::alignment::{Horizontal, Vertical};
use crate::clipboard::Clipboard;
use crate::event::{Event, Status};
use crate::hasher::{lemma_text_injective, lemma_word_injective, text, word, Hasher};
use crate::layout::limits::{lemma_narrowing, LimitsView};
use crate::layout::node::NodeView;
use crate::layout::{Layout, LayoutView, Limits, Node};
use crate::length::Length;
use crate::overlay;
use crate::point::Point;
use crate::rectangle::Rectangle;
use crate::renderer::{views, Color, Defaults, Font, Primitive, PrimitiveView, Renderer};
use crate::size::Size;
use crate::widget::{keeps_within, Widget};
use vstd::prelude::*;

verus! {

/// The mark that a [`Text`] feeds first.
pub const MARK: u64 = 3;

/// The size of a text: the one given, or that of the renderer.
pub open spec fn size_or_default<R: Renderer>(size: Option<u16>, renderer: &R) -> u16 {
    match size {
        Some(size) => size,
        None => renderer.spec_default_size(),
    }
}

/// The space that a text takes within `limits`: what the renderer measures
/// inside the largest size that its policies allow, resolved in the window.
pub open spec fn measured<R: Renderer>(
    renderer: &R,
    content: Seq<char>,
    size: Option<u16>,
    font: Font,
    width: Length,
    height: Length,
    limits: LimitsView,
) -> Size {
    let inner = limits.width(width).height(height);
    inner.resolve(
        renderer.spec_measure(content, size_or_default(size, renderer), font, inner.max),
    )
}

/// Measures a text within `limits`. The result lies within `limits`.
pub fn measure<R: Renderer>(
    renderer: &R,
    content: &str,
    size: Option<u16>,
    font: Font,
    width: Length,
    height: Length,
    limits: &Limits,
) -> (taken: Size)
    ensures
        taken == measured(renderer, content@, size, font, width, height, limits@),
        limits@.contains(taken),
{
    let wide = limits.width(width);
    let inner = wide.height(height);
    proof {
        use_type_invariant(limits);
        use_type_invariant(wide);
        lemma_narrowing(limits@, width, 0);
        lemma_narrowing(wide@, height, 0);
    }
    let size = match size {
        Some(size) => size,
        None => renderer.default_size(),
    };
    inner.resolve(renderer.measure(content, size, font, inner.max()))
}

/// What a [`Text`] holds.
pub ghost struct TextView {
    /// The characters of the text.
    pub content: Seq<char>,
    /// The size of the text, if one was set.
    pub size: Option<u16>,
    /// The color of the text, if one was set.
    pub color: Option<Color>,
    /// The font of the text.
    pub font: Font,
    /// The width policy.
    pub width: Length,
    /// The height policy.
    pub height: Length,
    /// How the text is aligned horizontally.
    pub horizontal_alignment: Horizontal,
    /// How the text is aligned vertically.
    pub vertical_alignment: Vertical,
}

impl TextView {
    /// The text with nothing but its content set.
    pub open spec fn new(content: Seq<char>) -> TextView {
        TextView {
            content,
            size: None,
            color: None,
            font: Font::Default,
            width: Length::Shrink,
            height: Length::Shrink,
            horizontal_alignment: Horizontal::Left,
            vertical_alignment: Vertical::Top,
        }
    }

    /// The size of the text: its own, or that of the renderer.
    pub open spec fn size_or<R: Renderer>(self, renderer: &R) -> u16 {
        size_or_default(self.size, renderer)
    }

    /// The space that the text takes within `limits`.
    pub open spec fn measured<R: Renderer>(self, renderer: &R, limits: LimitsView) -> Size {
        measured(renderer, self.content, self.size, self.font, self.width, self.height, limits)
    }

    /// What the size is fed as: whether one was set, then which.
    pub open spec fn size_feed(self) -> Seq<Seq<u8>> {
        match self.size {
            Some(size) => seq![word(1), word(size as u64)],
            None => seq![word(0)],
        }
    }

    /// What the text feeds: its mark, its content, its size, its width, its
    /// height and its font.
    pub open spec fn feed(self) -> Seq<Seq<u8>> {
        seq![word(MARK), text(self.content)] + self.size_feed() + seq![
            word(self.width.spec_code()),
            word(self.height.spec_code()),
            word(self.font.spec_code()),
        ]
    }

    /// The color that the text is drawn in.
    pub open spec fn color_or(self, defaults: Defaults) -> Color {
        match self.color {
            Some(color) => color,
            None => defaults.text_color,
        }
    }
}

/// A paragraph of text.
#[derive(Debug)]
pub struct Text {
    content: String,
    size: Option<u16>,
    color: Option<Color>,
    font: Font,
    width: Length,
    height: Length,
    horizontal_alignment: Horizontal,
    vertical_alignment: Vertical,
}

impl View for Text {
    type V = TextView;

    closed spec fn view(&self) -> TextView {
        TextView {
            content: self.content@,
            size: self.size,
            color: self.color,
            font: self.font,
            width: self.width,
            height: self.height,
            horizontal_alignment: self.horizontal_alignment,
            vertical_alignment: self.vertical_alignment,
        }
    }
}

impl Text {
    /// Create a new fragment of [`Text`] with the given contents.
    pub fn new(label: String) -> (text: Self)
        ensures
            text@ == TextView::new(label@),
    {
        Text {
            content: label,
            size: None,
            color: None,
            font: Font::Default,
            width: Length::Shrink,
            height: Length::Shrink,
            horizontal_alignment: Horizontal::Left,
            vertical_alignment: Vertical::Top,
        }
    }

    /// Sets the size of the [`Text`].
    pub fn size(self, size: u16) -> (text: Self)
        ensures
            text@ == (TextView { size: Some(size), ..self@ }),
    {
        let mut text = self;
        text.size = Some(size);
        text
    }

    /// Sets the [`Color`] of the [`Text`].
    pub fn color(self, color: Color) -> (text: Self)
        ensures
            text@ == (TextView { color: Some(color), ..self@ }),
    {
        let mut text = self;
        text.color = Some(color);
        text
    }

    /// Sets the [`Font`] of the [`Text`].
    pub fn font(self, font: Font) -> (text: Self)
        ensures
            text@ == (TextView { font, ..self@ }),
    {
        let mut text = self;
        text.font = font;
        text
    }

    /// Sets the width of the [`Text`] boundaries.
    pub fn width(self, width: Length) -> (text: Self)
        ensures
            text@ == (TextView { width, ..self@ }),
    {
        let mut text = self;
        text.width = width;
        text
    }

    /// Sets the height of the [`Text`] boundaries.
    pub fn height(self, height: Length) -> (text: Self)
        ensures
            text@ == (TextView { height, ..self@ }),
    {
        let mut text = self;
        text.height = height;
        text
    }

    /// Sets the horizontal alignment of the [`Text`].
    pub fn horizontal_alignment(self, alignment: Horizontal) -> (text: Self)
        ensures
            text@ == (TextView { horizontal_alignment: alignment, ..self@ }),
    {
        let mut text = self;
        text.horizontal_alignment = alignment;
        text
    }

    /// Sets the vertical alignment of the [`Text`].
    pub fn vertical_alignment(self, alignment: Vertical) -> (text: Self)
        ensures
            text@ == (TextView { vertical_alignment: alignment, ..self@ }),
    {
        let mut text = self;
        text.vertical_alignment = alignment;
        text
    }

    /// The size of the text: its own, or that of the renderer.
    fn size_or<R: Renderer>(&self, renderer: &R) -> (size: u16)
        ensures
            size == self@.size_or(renderer),
    {
        match self.size {
            Some(size) => size,
            None => renderer.default_size(),
        }
    }
}

/// Two texts feed the same exactly if they have the same content, size,
/// width, height and font: all that the space they take depends on. The
/// color and the alignments are not fed.
pub proof fn lemma_text_feed(a: TextView, b: TextView)
    ensures
        a.feed() == b.feed() <==> {
            &&& a.content == b.content
            &&& a.size == b.size
            &&& a.width == b.width
            &&& a.height == b.height
            &&& a.font == b.font
        },
{
    lemma_word_injective(0, 1);
    if a.feed() == b.feed() {
        assert(a.feed().len() == b.feed().len());
        assert(a.feed()[1] == b.feed()[1]);
        assert(a.feed()[2] == b.feed()[2]);
        lemma_text_injective(a.content, b.content);
        let last = a.feed().len() - 1;
        assert(a.feed()[last] == b.feed()[last]);
        assert(a.feed()[last - 1] == b.feed()[last - 1]);
        assert(a.feed()[last - 2] == b.feed()[last - 2]);
        lemma_word_injective(a.font.spec_code(), b.font.spec_code());
        Font::lemma_code_injective(a.font, b.font);
        lemma_word_injective(a.width.spec_code(), b.width.spec_code());
        lemma_word_injective(a.height.spec_code(), b.height.spec_code());
        Length::lemma_code_injective(a.width, b.width);
        Length::lemma_code_injective(a.height, b.height);
        if a.size.is_some() {
            assert(b.size.is_some());
            assert(a.feed()[3] == b.feed()[3]);
            lemma_word_injective(a.size.unwrap() as u64, b.size.unwrap() as u64);
        }
    }
}

/// A text keeps within its limits, whatever the renderer measures.
pub proof fn lemma_text_keeps_within<Message, R: Renderer>(text: Text, renderer: &R)
    ensures
        keeps_within::<Message, R, Text>(text, renderer),
{
    assert forall|limits: LimitsView| limits.wf() implies limits.contains(
        #[trigger] <Text as Widget<Message, R>>::spec_layout(&text, renderer, limits).size(),
    ) by {
        lemma_narrowing(limits, text@.width, 0);
        lemma_narrowing(limits.width(text@.width), text@.height, 0);
    }
}

impl<Message, R: Renderer> Widget<Message, R> for Text {
    open spec fn spec_width(&self) -> Length {
        self@.width
    }

    open spec fn spec_height(&self) -> Length {
        self@.height
    }

    open spec fn spec_layout(&self, renderer: &R, limits: LimitsView) -> NodeView {
        NodeView::leaf(self@.measured(renderer, limits))
    }

    open spec fn accepts(&self, children: Seq<NodeView>) -> bool {
        children.len() == 0
    }

    /// A text ignores every event.
    open spec fn reacts(
        &self,
        event: Event,
        layout: LayoutView,
        cursor_position: Point,
        emitted: Seq<Message>,
        status: Status,
    ) -> bool {
        emitted.len() == 0 && status == Status::Ignored
    }

    open spec fn spec_draw(
        &self,
        renderer: &R,
        defaults: Defaults,
        layout: LayoutView,
        cursor_position: Point,
        viewport: Rectangle,
    ) -> Seq<PrimitiveView> {
        seq![
            PrimitiveView::Text {
                content: self@.content,
                bounds: layout.bounds(),
                color: self@.color_or(defaults),
                size: self@.size_or(renderer),
                font: self@.font,
                horizontal_alignment: self@.horizontal_alignment,
                vertical_alignment: self@.vertical_alignment,
            },
        ]
    }

    open spec fn layout_feed(&self) -> Seq<Seq<u8>> {
        self@.feed()
    }

    open spec fn has_overlay(&self, layout: LayoutView) -> bool {
        false
    }

    open spec fn spec_overlay(&self, layout: LayoutView) -> overlay::Shown {
        overlay::Shown::nothing()
    }

    fn width(&self) -> (width: Length) {
        self.width
    }

    fn height(&self) -> (height: Length) {
        self.height
    }

    fn layout(&self, renderer: &R, limits: &Limits) -> (node: Node) {
        Node::new(
            measure(
                renderer,
                self.content.as_str(),
                self.size,
                self.font,
                self.width,
                self.height,
                limits,
            ),
        )
    }

    fn on_event(
        &mut self,
        event: Event,
        layout: Layout<'_>,
        cursor_position: Point,
        renderer: &R,
        clipboard: &mut Box<dyn Clipboard>,
        messages: &mut Vec<Message>,
    ) -> (status: Status)
        ensures
            final(self)@ == old(self)@,
    {
        assert(messages@.skip(messages@.len() as int) =~= Seq::empty());
        Status::Ignored
    }

    fn draw(
        &self,
        renderer: &R,
        defaults: &Defaults,
        layout: Layout<'_>,
        cursor_position: Point,
        viewport: &Rectangle,
    ) -> (primitives: Vec<Primitive>) {
        let color = match self.color {
            Some(color) => color,
            None => defaults.text_color,
        };
        let mut primitives = Vec::new();
        primitives.push(
            Primitive::Text {
                content: self.content.clone(),
                bounds: layout.bounds(),
                color,
                size: self.size_or(renderer),
                font: self.font,
                horizontal_alignment: self.horizontal_alignment,
                vertical_alignment: self.vertical_alignment,
            },
        );
        assert(views(primitives@) =~= <Text as Widget<Message, R>>::spec_draw(
            self,
            renderer,
            *defaults,
            layout@,
            cursor_position,
            *viewport,
        ));
        primitives
    }

    fn hash_layout(&self, state: &mut Hasher) {
        state.feed_u64(MARK);
        state.feed_str(self.content.as_str());
        match self.size {
            Some(size) => {
                state.feed_u64(1);
                state.feed_u64(size as u64);
            },
            None => {
                state.feed_u64(0);
            },
        }
        state.feed_u64(self.width.code());
        state.feed_u64(self.height.code());
        state.feed_u64(self.font.code());
        assert(state@ =~= old(state)@ + self@.feed());
    }

    fn overlay(&mut self, layout: Layout<'_>) -> (overlay: Option<overlay::Element<'_, Message, R>>) {
        None
    }
}

} // verus!
