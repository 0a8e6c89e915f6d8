//! Show toggle controls using checkboxes.
use crate::alignment::{Alignment, Horizontal, Vertical};
use crate::clipboard::Clipboard;
use crate::event::{Event, Status};
use crate::hasher::{lemma_text_injective, lemma_word_injective, text, word, Hasher};
use crate::layout::flex::{
    alike, available_before, cross_max, lemma_alike_items_same_layout, main_factor, main_sum,
    raw_nodes, resolve, spec_resolve, start_available, Axis,
};
use crate::layout::limits::{lemma_narrowing, LimitsView};
use crate::layout::node::{half, NodeView};
use crate::layout::{Layout, LayoutView, Limits, Node};
use crate::length::Length;
use crate::mapper::Mapper;
use crate::overlay;
use crate::padding::Padding;
use crate::point::Point;
use crate::rectangle::Rectangle;
use crate::renderer::{views, Color, Defaults, Font, Primitive, PrimitiveView, Renderer, Style};
use crate::size::Size;
use crate::units::{spec_max, spec_min};
use crate::widget::text::{measure, measured, size_or_default};
use crate::widget::{keeps_within, Widget};
use vstd::prelude::*;

verus! {

/// The mark that a [`Checkbox`] feeds first.
pub const MARK: u64 = 4;

/// The mark that the box of a [`Checkbox`] feeds first.
pub const BOX_MARK: u64 = 8;

/// The mark that the label of a [`Checkbox`] feeds first.
pub const LABEL_MARK: u64 = 9;

/// One of the two parts that a [`Checkbox`] is laid out as, side by side:
/// the box and the label.
pub enum Part<'b> {
    /// The box: a square of the given side.
    Mark {
        /// The side of the square.
        size: u16,
    },
    /// The label.
    Label {
        /// The text of the label.
        content: &'b String,
        /// The size of the text, if one was set.
        size: Option<u16>,
        /// The font of the text.
        font: Font,
        /// The width policy of the label.
        width: Length,
    },
}

/// A part of a checkbox keeps within its limits.
pub proof fn lemma_part_keeps_within<'b, R: Renderer>(part: Part<'b>, renderer: &R)
    ensures
        keeps_within::<(), R, Part<'b>>(part, renderer),
{
    assert forall|limits: LimitsView| limits.wf() implies limits.contains(
        #[trigger] <Part<'b> as Widget<(), R>>::spec_layout(&part, renderer, limits).size(),
    ) by {
        let width = <Part<'b> as Widget<(), R>>::spec_width(&part);
        let height = <Part<'b> as Widget<(), R>>::spec_height(&part);
        lemma_narrowing(limits, width, 0);
        lemma_narrowing(limits.width(width), height, 0);
    }
}

impl<'b> Part<'b> {
    /// What the part feeds: its mark and every field that its layout
    /// depends on.
    pub open spec fn feed(self) -> Seq<Seq<u8>> {
        match self {
            Part::Mark { size } => seq![word(BOX_MARK), word(size as u64)],
            Part::Label { content, size, font, width } => seq![
                word(LABEL_MARK),
                text(content@),
                word(width.spec_code()),
                word(font.spec_code()),
            ] + match size {
                Some(size) => seq![word(1), word(size as u64)],
                None => seq![word(0)],
            },
        }
    }
}

/// Two parts feed the same exactly if they are of the same kind and agree
/// on every field that their layout depends on.
pub proof fn lemma_part_feed(a: Part<'_>, b: Part<'_>)
    ensures
        a.feed() == b.feed() <==> match (a, b) {
            (Part::Mark { size: one }, Part::Mark { size: other }) => one == other,
            (
                Part::Label { content: c, size: s, font: f, width: w },
                Part::Label { content: d, size: t, font: g, width: x },
            ) => c@ == d@ && s == t && f == g && w == x,
            _ => false,
        },
{
    lemma_word_injective(0, 1);
    lemma_word_injective(BOX_MARK, LABEL_MARK);
    if a.feed() == b.feed() {
        assert(a.feed().len() == b.feed().len());
        assert(a.feed()[0] == b.feed()[0]);
        assert(a.feed()[1] == b.feed()[1]);
        match (a, b) {
            (Part::Mark { size: one }, Part::Mark { size: other }) => {
                lemma_word_injective(one as u64, other as u64);
            },
            (
                Part::Label { content: c, size: s, font: f, width: w },
                Part::Label { content: d, size: t, font: g, width: x },
            ) => {
                assert(a.feed()[2] == b.feed()[2]);
                assert(a.feed()[3] == b.feed()[3]);
                assert(a.feed()[4] == b.feed()[4]);
                lemma_text_injective(c@, d@);
                lemma_word_injective(w.spec_code(), x.spec_code());
                Length::lemma_code_injective(w, x);
                lemma_word_injective(f.spec_code(), g.spec_code());
                Font::lemma_code_injective(f, g);
                if s.is_some() {
                    assert(t.is_some());
                    assert(a.feed()[5] == b.feed()[5]);
                    lemma_word_injective(s.unwrap() as u64, t.unwrap() as u64);
                }
            },
            (Part::Mark { size }, Part::Label { .. }) => {
                assert(a.feed().len() == 2);
                assert(b.feed().len() >= 5);
            },
            (Part::Label { .. }, Part::Mark { size }) => {
                assert(b.feed().len() == 2);
                assert(a.feed().len() >= 5);
            },
        }
    }
}

impl<'b, R: Renderer> Widget<(), R> for Part<'b> {
    open spec fn spec_width(&self) -> Length {
        match self {
            Part::Mark { size } => Length::Units(*size),
            Part::Label { width, .. } => *width,
        }
    }

    open spec fn spec_height(&self) -> Length {
        match self {
            Part::Mark { size } => Length::Units(*size),
            Part::Label { .. } => Length::Shrink,
        }
    }

    open spec fn spec_layout(&self, renderer: &R, limits: LimitsView) -> NodeView {
        match self {
            Part::Mark { size } => NodeView::leaf(
                limits.width(Length::Units(*size)).height(Length::Units(*size)).resolve(
                    Size::spec_zero(),
                ),
            ),
            Part::Label { content, size, font, width } => NodeView::leaf(
                measured(renderer, content@, *size, *font, *width, Length::Shrink, limits),
            ),
        }
    }

    open spec fn accepts(&self, children: Seq<NodeView>) -> bool {
        children.len() == 0
    }

    open spec fn reacts(
        &self,
        event: Event,
        layout: LayoutView,
        cursor_position: Point,
        emitted: Seq<()>,
        status: Status,
    ) -> bool {
        emitted.len() == 0 && status == Status::Ignored
    }

    open spec fn spec_draw(
        &self,
        renderer: &R,
        defaults: Defaults,
        layout: LayoutView,
        cursor_position: Point,
        viewport: Rectangle,
    ) -> Seq<PrimitiveView> {
        Seq::empty()
    }

    open spec fn layout_feed(&self) -> Seq<Seq<u8>> {
        self.feed()
    }

    open spec fn has_overlay(&self, layout: LayoutView) -> bool {
        false
    }

    open spec fn spec_overlay(&self, layout: LayoutView) -> overlay::Shown {
        overlay::Shown::nothing()
    }

    fn width(&self) -> (width: Length) {
        match self {
            Part::Mark { size } => Length::Units(*size),
            Part::Label { width, .. } => *width,
        }
    }

    fn height(&self) -> (height: Length) {
        match self {
            Part::Mark { size } => Length::Units(*size),
            Part::Label { .. } => Length::Shrink,
        }
    }

    fn layout(&self, renderer: &R, limits: &Limits) -> (node: Node) {
        match self {
            Part::Mark { size } => {
                let wide = limits.width(Length::Units(*size));
                let inner = wide.height(Length::Units(*size));
                proof {
                    use_type_invariant(limits);
                    use_type_invariant(wide);
                    lemma_narrowing(limits@, Length::Units(*size), 0);
                    lemma_narrowing(wide@, Length::Units(*size), 0);
                }
                Node::new(inner.resolve(Size::zero()))
            },
            Part::Label { content, size, font, width } => Node::new(
                measure(renderer, content.as_str(), *size, *font, *width, Length::Shrink, limits),
            ),
        }
    }

    fn on_event(
        &mut self,
        event: Event,
        layout: Layout<'_>,
        cursor_position: Point,
        renderer: &R,
        clipboard: &mut Box<dyn Clipboard>,
        messages: &mut Vec<()>,
    ) -> (status: Status)
        ensures
            *final(self) == *old(self),
    {
        assert(messages@.skip(messages@.len() as int) =~= Seq::empty());
        Status::Ignored
    }

    fn draw(
        &self,
        renderer: &R,
        defaults: &Defaults,
        layout: Layout<'_>,
        cursor_position: Point,
        viewport: &Rectangle,
    ) -> (primitives: Vec<Primitive>) {
        let primitives = Vec::new();
        assert(views(primitives@) =~= Seq::empty());
        primitives
    }

    fn hash_layout(&self, state: &mut Hasher) {
        match self {
            Part::Mark { size } => {
                state.feed_u64(BOX_MARK);
                state.feed_u64(*size as u64);
            },
            Part::Label { content, size, font, width } => {
                state.feed_u64(LABEL_MARK);
                state.feed_str(content.as_str());
                state.feed_u64(width.code());
                state.feed_u64(font.code());
                match size {
                    Some(size) => {
                        state.feed_u64(1);
                        state.feed_u64(*size as u64);
                    },
                    None => {
                        state.feed_u64(0);
                    },
                }
            },
        }
        assert(state@ =~= old(state)@ + self.feed());
    }

    fn overlay(&mut self, layout: Layout<'_>) -> (overlay: Option<overlay::Element<'_, (), R>>) {
        None
    }
}

/// What a [`Checkbox`] holds, but for the function that makes its message.
pub ghost struct CheckboxView {
    /// Whether the box is checked.
    pub is_checked: bool,
    /// The characters of the label.
    pub label: Seq<char>,
    /// The width policy.
    pub width: Length,
    /// The side of the box.
    pub size: u16,
    /// The space between the box and the label.
    pub spacing: u16,
    /// The size of the label, if one was set.
    pub text_size: Option<u16>,
    /// The font of the label.
    pub font: Font,
    /// The color of the label, if one was set.
    pub text_color: Option<Color>,
    /// The style of the box.
    pub style: Style,
}

impl CheckboxView {
    /// A checkbox with nothing but its state and its label set.
    pub open spec fn new(is_checked: bool, label: Seq<char>) -> CheckboxView {
        CheckboxView {
            is_checked,
            label,
            width: Length::Shrink,
            size: 20,
            spacing: 15,
            text_size: None,
            font: Font::Default,
            text_color: None,
            style: Style(0),
        }
    }

    /// The window that the box and the label are laid out in.
    pub open spec fn limits(self, limits: LimitsView) -> LimitsView {
        limits.max_width(u32::MAX).max_height(u32::MAX).width(self.width).height(Length::Shrink)
    }

    /// What the size of the label is fed as: whether one was set, then
    /// which.
    pub open spec fn text_size_feed(self) -> Seq<Seq<u8>> {
        match self.text_size {
            Some(size) => seq![word(1), word(size as u64)],
            None => seq![word(0)],
        }
    }

    /// What the checkbox feeds: its mark and every field that its layout
    /// depends on: the label, the width, the side of the box, the spacing,
    /// the size of the label and its font.
    pub open spec fn feed(self) -> Seq<Seq<u8>> {
        seq![
            word(MARK),
            text(self.label),
            word(self.width.spec_code()),
            word(self.size as u64),
            word(self.spacing as u64),
        ] + self.text_size_feed() + seq![word(self.font.spec_code())]
    }

    /// The color that the label is drawn in.
    pub open spec fn color_or(self, defaults: Defaults) -> Color {
        match self.text_color {
            Some(color) => color,
            None => defaults.text_color,
        }
    }
}

/// A box that can be checked.
#[verifier::reject_recursive_types(Message)]
#[verifier::reject_recursive_types(F)]
pub struct Checkbox<Message, F: Fn(bool) -> Message> {
    is_checked: bool,
    on_toggle: Mapper<bool, Message, F>,
    label: String,
    width: Length,
    size: u16,
    spacing: u16,
    text_size: Option<u16>,
    font: Font,
    text_color: Option<Color>,
    style: Style,
}

impl<Message, F: Fn(bool) -> Message> View for Checkbox<Message, F> {
    type V = CheckboxView;

    closed spec fn view(&self) -> CheckboxView {
        CheckboxView {
            is_checked: self.is_checked,
            label: self.label@,
            width: self.width,
            size: self.size,
            spacing: self.spacing,
            text_size: self.text_size,
            font: self.font,
            text_color: self.text_color,
            style: self.style,
        }
    }
}

impl<Message, F: Fn(bool) -> Message> Checkbox<Message, F> {
    /// The function that makes the message of a toggle from the new state.
    pub closed spec fn on_toggle(&self) -> Mapper<bool, Message, F> {
        self.on_toggle
    }

    /// The label.
    pub closed spec fn label(&self) -> String {
        self.label
    }

    /// The label is the text whose characters the checkbox holds.
    pub proof fn lemma_label(&self)
        ensures
            self.label()@ == self@.label,
    {
    }

    /// The two parts that the checkbox is laid out as.
    pub open spec fn parts(&self) -> Seq<Part<'_>> {
        seq![
            Part::Mark { size: self@.size },
            Part::Label {
                content: &self.label(),
                size: self@.text_size,
                font: self@.font,
                width: self@.width,
            },
        ]
    }

    /// Creates a new [`Checkbox`].
    ///
    /// It expects:
    ///   * a boolean describing whether the [`Checkbox`] is checked or not
    ///   * the label of the [`Checkbox`]
    ///   * a function that will be called when the [`Checkbox`] is toggled.
    ///     It will receive the new state of the [`Checkbox`] and must
    ///     produce a `Message`.
    pub fn new(is_checked: bool, label: String, f: F) -> (checkbox: Self)
        requires
            forall|state: bool| call_requires(f, (state,)),
        ensures
            checkbox@ == CheckboxView::new(is_checked, label@),
            checkbox.label()@ == label@,
            checkbox.on_toggle().wraps(f),
    {
        Checkbox {
            is_checked,
            on_toggle: Mapper::new(f),
            label,
            width: Length::Shrink,
            size: 20,
            spacing: 15,
            text_size: None,
            font: Font::Default,
            text_color: None,
            style: Style(0),
        }
    }

    /// Sets the size of the [`Checkbox`].
    pub fn size(self, size: u16) -> (checkbox: Self)
        ensures
            checkbox@ == (CheckboxView { size, ..self@ }),
            checkbox.on_toggle() == self.on_toggle(),
            checkbox.label() == self.label(),
    {
        let mut checkbox = self;
        checkbox.size = size;
        checkbox
    }

    /// Sets the width of the [`Checkbox`].
    pub fn width(self, width: Length) -> (checkbox: Self)
        ensures
            checkbox@ == (CheckboxView { width, ..self@ }),
            checkbox.on_toggle() == self.on_toggle(),
            checkbox.label() == self.label(),
    {
        let mut checkbox = self;
        checkbox.width = width;
        checkbox
    }

    /// Sets the spacing between the [`Checkbox`] and the text.
    pub fn spacing(self, spacing: u16) -> (checkbox: Self)
        ensures
            checkbox@ == (CheckboxView { spacing, ..self@ }),
            checkbox.on_toggle() == self.on_toggle(),
            checkbox.label() == self.label(),
    {
        let mut checkbox = self;
        checkbox.spacing = spacing;
        checkbox
    }

    /// Sets the text size of the [`Checkbox`].
    pub fn text_size(self, text_size: u16) -> (checkbox: Self)
        ensures
            checkbox@ == (CheckboxView { text_size: Some(text_size), ..self@ }),
            checkbox.on_toggle() == self.on_toggle(),
            checkbox.label() == self.label(),
    {
        let mut checkbox = self;
        checkbox.text_size = Some(text_size);
        checkbox
    }

    /// Sets the [`Font`] of the text of the [`Checkbox`].
    pub fn font(self, font: Font) -> (checkbox: Self)
        ensures
            checkbox@ == (CheckboxView { font, ..self@ }),
            checkbox.on_toggle() == self.on_toggle(),
            checkbox.label() == self.label(),
    {
        let mut checkbox = self;
        checkbox.font = font;
        checkbox
    }

    /// Sets the text color of the [`Checkbox`] button.
    pub fn text_color(self, color: Color) -> (checkbox: Self)
        ensures
            checkbox@ == (CheckboxView { text_color: Some(color), ..self@ }),
            checkbox.on_toggle() == self.on_toggle(),
            checkbox.label() == self.label(),
    {
        let mut checkbox = self;
        checkbox.text_color = Some(color);
        checkbox
    }

    /// Sets the style of the [`Checkbox`].
    pub fn style(self, style: Style) -> (checkbox: Self)
        ensures
            checkbox@ == (CheckboxView { style, ..self@ }),
            checkbox.on_toggle() == self.on_toggle(),
            checkbox.label() == self.label(),
    {
        let mut checkbox = self;
        checkbox.style = style;
        checkbox
    }
}

/// Two checkboxes feed the same exactly if they agree on every field that
/// their layout depends on: the label, the width, the side of the box, the
/// spacing, the size of the label and its font. Whether the box is checked,
/// the color of the label and the style are not fed: a change of one of
/// them leaves the fingerprint as it is.
pub proof fn lemma_checkbox_feed(a: CheckboxView, b: CheckboxView)
    ensures
        a.feed() == b.feed() <==> {
            &&& a.label == b.label
            &&& a.width == b.width
            &&& a.size == b.size
            &&& a.spacing == b.spacing
            &&& a.text_size == b.text_size
            &&& a.font == b.font
        },
{
    lemma_word_injective(0, 1);
    if a.feed() == b.feed() {
        assert(a.feed().len() == b.feed().len());
        assert(a.feed()[1] == b.feed()[1]);
        assert(a.feed()[2] == b.feed()[2]);
        assert(a.feed()[3] == b.feed()[3]);
        assert(a.feed()[4] == b.feed()[4]);
        assert(a.feed()[5] == b.feed()[5]);
        let last = a.feed().len() - 1;
        assert(a.feed()[last] == b.feed()[last]);
        lemma_text_injective(a.label, b.label);
        lemma_word_injective(a.width.spec_code(), b.width.spec_code());
        Length::lemma_code_injective(a.width, b.width);
        lemma_word_injective(a.size as u64, b.size as u64);
        lemma_word_injective(a.spacing as u64, b.spacing as u64);
        lemma_word_injective(a.font.spec_code(), b.font.spec_code());
        Font::lemma_code_injective(a.font, b.font);
        if a.text_size.is_some() {
            assert(b.text_size.is_some());
            assert(a.feed()[6] == b.feed()[6]);
            lemma_word_injective(a.text_size.unwrap() as u64, b.text_size.unwrap() as u64);
        }
    }
}

/// The layout of a checkbox depends on what it holds only through the
/// fields that it feeds: two checkboxes with the same label, width, side of
/// the box, spacing, size of the label and font compute the same node,
/// whether they are checked or not and whatever their color, their style
/// and their messages.
pub proof fn lemma_checkbox_layout_by_view<M, N, R: Renderer, F: Fn(bool) -> M, G: Fn(bool) -> N>(
    a: Checkbox<M, F>,
    b: Checkbox<N, G>,
    renderer: &R,
    limits: LimitsView,
)
    requires
        a@.label == b@.label,
        a@.width == b@.width,
        a@.size == b@.size,
        a@.spacing == b@.spacing,
        a@.text_size == b@.text_size,
        a@.font == b@.font,
    ensures
        <Checkbox<M, F> as Widget<M, R>>::spec_layout(&a, renderer, limits) == <Checkbox<
            N,
            G,
        > as Widget<N, R>>::spec_layout(&b, renderer, limits),
{
    a.lemma_label();
    b.lemma_label();
    assert(alike::<(), (), R, Part<'_>, Part<'_>>(
        Axis::Horizontal,
        renderer,
        a.parts(),
        b.parts(),
    ));
    lemma_alike_items_same_layout::<(), (), R, Part<'_>, Part<'_>>(
        Axis::Horizontal,
        renderer,
        a@.limits(limits),
        Padding::spec_zero(),
        a@.spacing as u32,
        Alignment::Center,
        a.parts(),
        b.parts(),
    );
}

/// The space that the label of a checkbox takes beside its box: what the
/// renderer measures in the room that the box and the spacing leave of
/// `limits`, cut down to that room.
pub open spec fn label_size<R: Renderer>(view: CheckboxView, renderer: &R, limits: LimitsView) -> Size {
    let room = Size {
        width: (limits.max.width - view.spacing - view.size) as u32,
        height: limits.max.height,
    };
    let measured = renderer.spec_measure(
        view.label,
        size_or_default(view.text_size, renderer),
        view.font,
        room,
    );
    Size {
        width: spec_min(measured.width as int, room.width as int) as u32,
        height: spec_min(measured.height as int, room.height as int) as u32,
    }
}

/// A checkbox that shrinks, in a window without a minimum that has room
/// for the box and the spacing: the box comes first, a square of its side;
/// the label follows at the side of the box and the spacing, as large as
/// it is measured; both are centered across; and the checkbox is as wide
/// as the box, the spacing and the label, and as high as the higher of the
/// two. Whether the box is checked plays no part.
pub proof fn lemma_checkbox_shrinks_to_box_and_label<M, R: Renderer, F: Fn(bool) -> M>(
    checkbox: Checkbox<M, F>,
    renderer: &R,
    limits: LimitsView,
)
    requires
        limits.wf(),
        limits.min == Size::spec_zero(),
        checkbox@.width == Length::Shrink,
        checkbox@.size + checkbox@.spacing <= limits.max.width,
        checkbox@.size <= limits.max.height,
    ensures
        ({
            let view = checkbox@;
            let node = <Checkbox<M, F> as Widget<M, R>>::spec_layout(&checkbox, renderer, limits);
            let label = label_size(view, renderer, limits);
            let high = spec_max(view.size as int, label.height as int);
            &&& node.children.len() == 2
            &&& node.children[0].bounds == (Rectangle {
                x: 0,
                y: half(high - view.size) as i32,
                width: view.size as u32,
                height: view.size as u32,
            })
            &&& node.children[1].bounds == (Rectangle {
                x: (view.size + view.spacing) as i32,
                y: half(high - label.height) as i32,
                width: label.width,
                height: label.height,
            })
            &&& node.size() == (Size {
                width: (view.size + view.spacing + label.width) as u32,
                height: high as u32,
            })
        }),
{
    checkbox.lemma_label();
    let view = checkbox@;
    let window = view.limits(limits);
    let inner = window.pad(Padding::spec_zero());
    let items = checkbox.parts();
    let spacing = view.spacing as u32;
    assert(inner == window);
    assert(spacing * (2 - 1) == spacing) by (nonlinear_arith);
    assert(spacing * 0 == 0) by (nonlinear_arith);
    assert(spacing * 1 == spacing) by (nonlinear_arith);
    let start = start_available(Axis::Horizontal, inner, spacing, 2);
    assert(start == limits.max.width - view.spacing);
    let max_cross = limits.max.height;
    reveal_with_fuel(available_before, 3);
    reveal_with_fuel(main_sum, 3);
    reveal_with_fuel(cross_max, 3);
    let raw = raw_nodes::<(), R, Part<'_>>(Axis::Horizontal, renderer, inner, spacing, items);
    assert(main_factor::<(), R, Part<'_>>(Axis::Horizontal, items[0]) == 0);
    assert(main_factor::<(), R, Part<'_>>(Axis::Horizontal, items[1]) == 0);
    let before0 = available_before::<(), R, Part<'_>>(
        Axis::Horizontal,
        renderer,
        start,
        max_cross,
        items,
        0,
    );
    assert(before0 == start);
    assert(raw[0] == NodeView::leaf(Size { width: view.size as u32, height: view.size as u32 }));
    let before1 = available_before::<(), R, Part<'_>>(
        Axis::Horizontal,
        renderer,
        start,
        max_cross,
        items,
        1,
    );
    assert(before1 == start - view.size);
    let label = label_size(view, renderer, limits);
    assert(raw[1] == NodeView::leaf(label));
}

/// A checkbox keeps within its limits, whatever the renderer measures.
pub proof fn lemma_checkbox_keeps_within<Message, R: Renderer, F: Fn(bool) -> Message>(
    checkbox: Checkbox<Message, F>,
    renderer: &R,
)
    ensures
        keeps_within::<Message, R, Checkbox<Message, F>>(checkbox, renderer),
{
    assert forall|limits: LimitsView| limits.wf() implies limits.contains(
        #[trigger] <Checkbox<Message, F> as Widget<Message, R>>::spec_layout(
            &checkbox,
            renderer,
            limits,
        ).size(),
    ) by {
        lemma_narrowing(limits, checkbox@.width, u32::MAX);
        lemma_narrowing(limits.max_width(u32::MAX), checkbox@.width, u32::MAX);
        let low = limits.max_width(u32::MAX).max_height(u32::MAX);
        lemma_narrowing(low, checkbox@.width, 0);
        lemma_narrowing(low.width(checkbox@.width), Length::Shrink, 0);
    }
}

impl<Message, R: Renderer, F: Fn(bool) -> Message> Widget<Message, R> for Checkbox<Message, F> {
    open spec fn spec_width(&self) -> Length {
        self@.width
    }

    open spec fn spec_height(&self) -> Length {
        Length::Shrink
    }

    /// The box and the label side by side, `spacing` apart and centered
    /// across: the flex layout of the two along the horizontal axis.
    open spec fn spec_layout(&self, renderer: &R, limits: LimitsView) -> NodeView {
        spec_resolve::<(), R, Part<'_>>(
            Axis::Horizontal,
            renderer,
            self@.limits(limits),
            Padding::spec_zero(),
            self@.spacing as u32,
            Alignment::Center,
            self.parts(),
        )
    }

    open spec fn accepts(&self, children: Seq<NodeView>) -> bool {
        children.len() == 2
    }

    /// A press inside the bounds emits the message of the opposite state
    /// and is captured; everything else is ignored.
    open spec fn reacts(
        &self,
        event: Event,
        layout: LayoutView,
        cursor_position: Point,
        emitted: Seq<Message>,
        status: Status,
    ) -> bool {
        if event.spec_is_press() && layout.bounds().spec_contains(cursor_position) {
            &&& emitted.len() == 1
            &&& self.on_toggle().maps(!self@.is_checked, emitted[0])
            &&& status == Status::Captured
        } else {
            emitted.len() == 0 && status == Status::Ignored
        }
    }

    /// The box, in the bounds of the first child, then the label, in the
    /// bounds of the second.
    open spec fn spec_draw(
        &self,
        renderer: &R,
        defaults: Defaults,
        layout: LayoutView,
        cursor_position: Point,
        viewport: Rectangle,
    ) -> Seq<PrimitiveView> {
        seq![
            PrimitiveView::Checkbox {
                bounds: layout.child(0).bounds(),
                is_checked: self@.is_checked,
                is_mouse_over: layout.bounds().spec_contains(cursor_position),
                style: self@.style,
            },
            PrimitiveView::Text {
                content: self@.label,
                bounds: layout.child(1).bounds(),
                color: self@.color_or(defaults),
                size: size_or_default(self@.text_size, renderer),
                font: self@.font,
                horizontal_alignment: Horizontal::Left,
                vertical_alignment: Vertical::Center,
            },
        ]
    }

    open spec fn layout_feed(&self) -> Seq<Seq<u8>> {
        self@.feed()
    }

    open spec fn has_overlay(&self, layout: LayoutView) -> bool {
        false
    }

    open spec fn spec_overlay(&self, layout: LayoutView) -> overlay::Shown {
        overlay::Shown::nothing()
    }

    fn width(&self) -> (width: Length) {
        self.width
    }

    fn height(&self) -> (height: Length) {
        Length::Shrink
    }

    fn layout(&self, renderer: &R, limits: &Limits) -> (node: Node) {
        let narrow = limits.max_width(u32::MAX);
        let low = narrow.max_height(u32::MAX);
        let wide = low.width(self.width);
        let inner = wide.height(Length::Shrink);
        proof {
            use_type_invariant(limits);
            use_type_invariant(narrow);
            use_type_invariant(low);
            use_type_invariant(wide);
            lemma_narrowing(limits@, self.width, u32::MAX);
            lemma_narrowing(narrow@, self.width, u32::MAX);
            lemma_narrowing(low@, self.width, 0);
            lemma_narrowing(wide@, Length::Shrink, 0);
        }
        let mut parts: Vec<Part<'_>> = Vec::new();
        parts.push(Part::Mark { size: self.size });
        parts.push(
            Part::Label {
                content: &self.label,
                size: self.text_size,
                font: self.font,
                width: self.width,
            },
        );
        assert(parts@ =~= self.parts());
        resolve::<(), R, Part<'_>>(
            Axis::Horizontal,
            renderer,
            &inner,
            Padding::zero(),
            self.spacing as u32,
            Alignment::Center,
            parts.as_slice(),
        )
    }

    fn on_event(
        &mut self,
        event: Event,
        layout: Layout<'_>,
        cursor_position: Point,
        renderer: &R,
        clipboard: &mut Box<dyn Clipboard>,
        messages: &mut Vec<Message>,
    ) -> (status: Status)
        ensures
            final(self)@ == old(self)@,
            final(self).on_toggle() == old(self).on_toggle(),
            final(self).label() == old(self).label(),
    {
        if event.is_press() && layout.bounds().contains(cursor_position) {
            let message = self.on_toggle.apply(!self.is_checked);
            messages.push(message);
            assert(messages@.skip(old(messages)@.len() as int) =~= seq![message]);
            Status::Captured
        } else {
            assert(messages@.skip(messages@.len() as int) =~= Seq::empty());
            Status::Ignored
        }
    }

    fn draw(
        &self,
        renderer: &R,
        defaults: &Defaults,
        layout: Layout<'_>,
        cursor_position: Point,
        viewport: &Rectangle,
    ) -> (primitives: Vec<Primitive>) {
        let bounds = layout.bounds();
        let children = layout.children();
        assert(crate::layout::views(children@).len() == children@.len());
        assert(crate::layout::views(children@)[0] == children@[0]@);
        assert(crate::layout::views(children@)[1] == children@[1]@);
        let checkbox_bounds = children[0].bounds();
        let label_bounds = children[1].bounds();
        let size = match self.text_size {
            Some(size) => size,
            None => renderer.default_size(),
        };
        let color = match self.text_color {
            Some(color) => color,
            None => defaults.text_color,
        };
        let is_mouse_over = bounds.contains(cursor_position);
        let mut primitives = Vec::new();
        primitives.push(
            Primitive::Checkbox {
                bounds: checkbox_bounds,
                is_checked: self.is_checked,
                is_mouse_over,
                style: self.style,
            },
        );
        primitives.push(
            Primitive::Text {
                content: self.label.clone(),
                bounds: label_bounds,
                color,
                size,
                font: self.font,
                horizontal_alignment: Horizontal::Left,
                vertical_alignment: Vertical::Center,
            },
        );
        assert(views(primitives@) =~= <Checkbox<Message, F> as Widget<Message, R>>::spec_draw(
            self,
            renderer,
            *defaults,
            layout@,
            cursor_position,
            *viewport,
        ));
        primitives
    }

    fn hash_layout(&self, state: &mut Hasher) {
        state.feed_u64(MARK);
        state.feed_str(self.label.as_str());
        state.feed_u64(self.width.code());
        state.feed_u64(self.size as u64);
        state.feed_u64(self.spacing as u64);
        match self.text_size {
            Some(size) => {
                state.feed_u64(1);
                state.feed_u64(size as u64);
            },
            None => {
                state.feed_u64(0);
            },
        }
        state.feed_u64(self.font.code());
        assert(state@ =~= old(state)@ + self@.feed());
    }

    fn overlay(&mut self, layout: Layout<'_>) -> (overlay: Option<overlay::Element<'_, Message, R>>) {
        None
    }
}

} // verus!
