//! Provide progress feedback to your users.
use crate::clipboard::Clipboard;
use crate::event::{Event, Status};
use crate::hasher::{lemma_word_injective, word, Hasher};
use crate::layout::limits::{lemma_narrowing, LimitsView};
use crate::layout::node::NodeView;
use crate::layout::{Layout, LayoutView, Limits, Node};
use crate::length::Length;
use crate::overlay;
use crate::point::Point;
use crate::rectangle::Rectangle;
use crate::renderer::{views, Defaults, Primitive, PrimitiveView, Renderer, Style};
use crate::size::Size;
use crate::widget::{keeps_within, Widget};
use vstd::prelude::*;

verus! {

/// The mark that a [`ProgressBar`] feeds first.
pub const MARK: u64 = 2;

/// The height of a [`ProgressBar`] that sets none.
pub const DEFAULT_HEIGHT: u16 = 30;

/// What a [`ProgressBar`] holds.
pub ghost struct ProgressBarView {
    /// The value at which the bar is empty.
    pub start: i32,
    /// The value at which the bar is full.
    pub end: i32,
    /// The value shown.
    pub value: i32,
    /// The width policy.
    pub width: Length,
    /// The height policy, if one was set.
    pub height: Option<Length>,
    /// The style of the bar.
    pub style: Style,
}

/// `value` brought into the range from `start` to `end`: raised to
/// `start`, then lowered to `end`.
pub open spec fn clamp_value(start: i32, end: i32, value: i32) -> i32 {
    let raised = if value < start {
        start
    } else {
        value
    };
    if raised > end {
        end
    } else {
        raised
    }
}

impl ProgressBarView {
    /// The height policy in effect.
    pub open spec fn height_or_default(self) -> Length {
        match self.height {
            Some(height) => height,
            None => Length::Units(DEFAULT_HEIGHT),
        }
    }

    /// The size of the bar within `limits`.
    pub open spec fn size(self, limits: LimitsView) -> Size {
        limits.width(self.width).height(self.height_or_default()).resolve(Size::spec_zero())
    }

    /// What the height policy is fed as: whether one was set, then which.
    pub open spec fn height_feed(self) -> Seq<Seq<u8>> {
        match self.height {
            Some(height) => seq![word(1), word(height.spec_code())],
            None => seq![word(0)],
        }
    }

    /// What the bar feeds: its mark, its width and its height.
    pub open spec fn feed(self) -> Seq<Seq<u8>> {
        seq![word(MARK), word(self.width.spec_code())] + self.height_feed()
    }
}

/// A bar that displays progress.
#[derive(Debug)]
pub struct ProgressBar {
    start: i32,
    end: i32,
    value: i32,
    width: Length,
    height: Option<Length>,
    style: Style,
}

impl View for ProgressBar {
    type V = ProgressBarView;

    closed spec fn view(&self) -> ProgressBarView {
        ProgressBarView {
            start: self.start,
            end: self.end,
            value: self.value,
            width: self.width,
            height: self.height,
            style: self.style,
        }
    }
}

impl ProgressBar {
    /// Creates a new [`ProgressBar`].
    ///
    /// It expects:
    ///   * the ends of the range of possible values
    ///   * the current value of the [`ProgressBar`], which is brought into
    ///     the range
    pub fn new(start: i32, end: i32, value: i32) -> (bar: Self)
        ensures
            bar@ == (ProgressBarView {
                start,
                end,
                value: clamp_value(start, end, value),
                width: Length::Fill,
                height: None,
                style: Style(0),
            }),
    {
        let raised = if value < start {
            start
        } else {
            value
        };
        let value = if raised > end {
            end
        } else {
            raised
        };
        ProgressBar { start, end, value, width: Length::Fill, height: None, style: Style(0) }
    }

    /// Sets the width of the [`ProgressBar`].
    pub fn width(self, width: Length) -> (bar: Self)
        ensures
            bar@ == (ProgressBarView { width, ..self@ }),
    {
        let mut bar = self;
        bar.width = width;
        bar
    }

    /// Sets the height of the [`ProgressBar`].
    pub fn height(self, height: Length) -> (bar: Self)
        ensures
            bar@ == (ProgressBarView { height: Some(height), ..self@ }),
    {
        let mut bar = self;
        bar.height = Some(height);
        bar
    }

    /// Sets the style of the [`ProgressBar`].
    pub fn style(self, style: Style) -> (bar: Self)
        ensures
            bar@ == (ProgressBarView { style, ..self@ }),
    {
        let mut bar = self;
        bar.style = style;
        bar
    }

    /// The height policy in effect.
    fn height_or_default(&self) -> (height: Length)
        ensures
            height == self@.height_or_default(),
    {
        match self.height {
            Some(height) => height,
            None => Length::Units(DEFAULT_HEIGHT),
        }
    }
}

/// Two progress bars feed the same exactly if they have the same width and
/// the same height. The range, the value and the style are not fed: they
/// change what is drawn, not where.
pub proof fn lemma_progress_bar_feed(a: ProgressBarView, b: ProgressBarView)
    ensures
        a.feed() == b.feed() <==> a.width == b.width && a.height == b.height,
{
    lemma_word_injective(0, 1);
    if a.feed() == b.feed() {
        assert(a.feed()[1] == b.feed()[1]);
        assert(a.feed()[2] == b.feed()[2]);
        assert(a.feed().len() == b.feed().len());
        lemma_word_injective(a.width.spec_code(), b.width.spec_code());
        Length::lemma_code_injective(a.width, b.width);
        if a.height.is_some() {
            assert(b.height.is_some());
            assert(a.feed()[3] == b.feed()[3]);
            lemma_word_injective(
                a.height.unwrap().spec_code(),
                b.height.unwrap().spec_code(),
            );
            Length::lemma_code_injective(a.height.unwrap(), b.height.unwrap());
        }
    }
}

/// A progress bar keeps within its limits.
pub proof fn lemma_progress_bar_keeps_within<Message, R: Renderer>(bar: ProgressBar, renderer: &R)
    ensures
        keeps_within::<Message, R, ProgressBar>(bar, renderer),
{
    assert forall|limits: LimitsView| limits.wf() implies limits.contains(
        #[trigger] <ProgressBar as Widget<Message, R>>::spec_layout(&bar, renderer, limits).size(),
    ) by {
        lemma_narrowing(limits, bar@.width, 0);
        lemma_narrowing(limits.width(bar@.width), bar@.height_or_default(), 0);
    }
}

impl<Message, R: Renderer> Widget<Message, R> for ProgressBar {
    open spec fn spec_width(&self) -> Length {
        self@.width
    }

    open spec fn spec_height(&self) -> Length {
        self@.height_or_default()
    }

    open spec fn spec_layout(&self, renderer: &R, limits: LimitsView) -> NodeView {
        NodeView::leaf(self@.size(limits))
    }

    open spec fn accepts(&self, children: Seq<NodeView>) -> bool {
        children.len() == 0
    }

    /// A progress bar ignores every event.
    open spec fn reacts(
        &self,
        event: Event,
        layout: LayoutView,
        cursor_position: Point,
        emitted: Seq<Message>,
        status: Status,
    ) -> bool {
        emitted.len() == 0 && status == Status::Ignored
    }

    open spec fn spec_draw(
        &self,
        renderer: &R,
        defaults: Defaults,
        layout: LayoutView,
        cursor_position: Point,
        viewport: Rectangle,
    ) -> Seq<PrimitiveView> {
        seq![
            PrimitiveView::ProgressBar {
                bounds: layout.bounds(),
                start: self@.start,
                end: self@.end,
                value: self@.value,
                style: self@.style,
            },
        ]
    }

    open spec fn layout_feed(&self) -> Seq<Seq<u8>> {
        self@.feed()
    }

    open spec fn has_overlay(&self, layout: LayoutView) -> bool {
        false
    }

    open spec fn spec_overlay(&self, layout: LayoutView) -> overlay::Shown {
        overlay::Shown::nothing()
    }

    fn width(&self) -> (width: Length) {
        self.width
    }

    fn height(&self) -> (height: Length) {
        self.height_or_default()
    }

    fn layout(&self, renderer: &R, limits: &Limits) -> (node: Node) {
        let height = self.height_or_default();
        let wide = limits.width(self.width);
        let inner = wide.height(height);
        proof {
            use_type_invariant(limits);
            use_type_invariant(wide);
            lemma_narrowing(limits@, self.width, 0);
            lemma_narrowing(wide@, height, 0);
        }
        Node::new(inner.resolve(Size::zero()))
    }

    fn on_event(
        &mut self,
        event: Event,
        layout: Layout<'_>,
        cursor_position: Point,
        renderer: &R,
        clipboard: &mut Box<dyn Clipboard>,
        messages: &mut Vec<Message>,
    ) -> (status: Status)
        ensures
            final(self)@ == old(self)@,
    {
        assert(messages@.skip(messages@.len() as int) =~= Seq::empty());
        Status::Ignored
    }

    fn draw(
        &self,
        renderer: &R,
        defaults: &Defaults,
        layout: Layout<'_>,
        cursor_position: Point,
        viewport: &Rectangle,
    ) -> (primitives: Vec<Primitive>) {
        let mut primitives = Vec::new();
        primitives.push(
            Primitive::ProgressBar {
                bounds: layout.bounds(),
                start: self.start,
                end: self.end,
                value: self.value,
                style: self.style,
            },
        );
        assert(views(primitives@) =~= <ProgressBar as Widget<Message, R>>::spec_draw(
            self,
            renderer,
            *defaults,
            layout@,
            cursor_position,
            *viewport,
        ));
        primitives
    }

    fn hash_layout(&self, state: &mut Hasher) {
        state.feed_u64(MARK);
        state.feed_u64(self.width.code());
        match self.height {
            Some(height) => {
                state.feed_u64(1);
                state.feed_u64(height.code());
            },
            None => {
                state.feed_u64(0);
            },
        }
        assert(state@ =~= old(state)@ + self@.feed());
    }

    fn overlay(&mut self, layout: Layout<'_>) -> (overlay: Option<overlay::Element<'_, Message, R>>) {
        None
    }
}

} // verus!
