//! Decorate content and apply alignment.
use crate::alignment::{Alignment, Horizontal, Vertical};
use crate::clipboard::Clipboard;
use crate::element::Element;
use crate::event::{Event, Status};
use crate::hasher::{lemma_word_injective, word, Hasher};
use crate::layout::limits::{lemma_narrowing, LimitsView};
use crate::layout::node::NodeView;
use crate::layout::{Layout, LayoutView, Limits, Node};
use crate::length::Length;
use crate::overlay;
use crate::padding::Padding;
use crate::point::Point;
use crate::rectangle::Rectangle;
use crate::renderer::{lemma_views_concat, views, Defaults, Primitive, PrimitiveView, Renderer, Style};
use crate::widget::{keeps_within, Widget};
use vstd::prelude::*;

verus! {

/// The mark that a [`Container`] feeds first.
pub const MARK: u64 = 5;

/// What a [`Container`] holds.
#[verifier::reject_recursive_types(Message)]
#[verifier::reject_recursive_types(R)]
pub ghost struct ContainerView<'a, Message, R: Renderer> {
    /// The space around the content.
    pub padding: Padding,
    /// The width policy.
    pub width: Length,
    /// The height policy.
    pub height: Length,
    /// The largest width allowed.
    pub max_width: u32,
    /// The largest height allowed.
    pub max_height: u32,
    /// How the content is aligned horizontally.
    pub horizontal_alignment: Horizontal,
    /// How the content is aligned vertically.
    pub vertical_alignment: Vertical,
    /// The style of the container.
    pub style: Style,
    /// The content.
    pub content: Element<'a, Message, R>,
}

impl<'a, Message, R: Renderer> ContainerView<'a, Message, R> {
    /// A container of the given content with nothing else set: no padding,
    /// as small as the content allows, content at the top left.
    pub open spec fn new(content: Element<'a, Message, R>) -> Self {
        ContainerView {
            padding: Padding::spec_zero(),
            width: Length::Shrink,
            height: Length::Shrink,
            max_width: u32::MAX,
            max_height: u32::MAX,
            horizontal_alignment: Horizontal::Left,
            vertical_alignment: Vertical::Top,
            style: Style(0),
            content,
        }
    }

    /// The window inside the padding: `limits` without its minimum, with
    /// the bounds and policies of the container applied and the padding
    /// taken off.
    pub open spec fn limits(self, limits: LimitsView) -> LimitsView {
        limits.loose().max_width(self.max_width).max_height(self.max_height).width(
            self.width,
        ).height(self.height).pad(self.padding)
    }

    /// The node of the content in `limits`, before it is placed.
    pub open spec fn content_node(self, renderer: &R, limits: LimitsView) -> NodeView {
        self.content.spec_layout(renderer, self.limits(limits).loose())
    }

    /// The space that the content is aligned in.
    pub open spec fn inner_size(self, renderer: &R, limits: LimitsView) -> crate::size::Size {
        self.limits(limits).resolve(self.content_node(renderer, limits).size())
    }

    /// What the container feeds before its content: its mark and every
    /// field that its layout depends on, the alignments of the content
    /// among them.
    pub open spec fn own_feed(self) -> Seq<Seq<u8>> {
        seq![
            word(MARK),
            word(self.padding.top as u64),
            word(self.padding.right as u64),
            word(self.padding.bottom as u64),
            word(self.padding.left as u64),
            word(self.width.spec_code()),
            word(self.height.spec_code()),
            word(self.max_width as u64),
            word(self.max_height as u64),
            word(Alignment::spec_horizontal(self.horizontal_alignment).spec_code()),
            word(Alignment::spec_vertical(self.vertical_alignment).spec_code()),
        ]
    }
}

/// An element decorating some content.
///
/// It is normally used for alignment purposes.
#[verifier::reject_recursive_types(Message)]
#[verifier::reject_recursive_types(R)]
pub struct Container<'a, Message, R: Renderer> {
    padding: Padding,
    width: Length,
    height: Length,
    max_width: u32,
    max_height: u32,
    horizontal_alignment: Horizontal,
    vertical_alignment: Vertical,
    style: Style,
    content: Element<'a, Message, R>,
}

impl<'a, Message, R: Renderer> View for Container<'a, Message, R> {
    type V = ContainerView<'a, Message, R>;

    closed spec fn view(&self) -> ContainerView<'a, Message, R> {
        ContainerView {
            padding: self.padding,
            width: self.width,
            height: self.height,
            max_width: self.max_width,
            max_height: self.max_height,
            horizontal_alignment: self.horizontal_alignment,
            vertical_alignment: self.vertical_alignment,
            style: self.style,
            content: self.content,
        }
    }
}

impl<'a, Message, R: Renderer> Container<'a, Message, R> {
    /// Creates a [`Container`] of the given content.
    pub fn new(content: Element<'a, Message, R>) -> (container: Self)
        ensures
            container@ == ContainerView::new(content),
    {
        Container {
            padding: Padding::zero(),
            width: Length::Shrink,
            height: Length::Shrink,
            max_width: u32::MAX,
            max_height: u32::MAX,
            horizontal_alignment: Horizontal::Left,
            vertical_alignment: Vertical::Top,
            style: Style(0),
            content,
        }
    }

    /// Sets the [`Padding`] of the [`Container`].
    pub fn padding(self, padding: Padding) -> (container: Self)
        ensures
            container@ == (ContainerView { padding, ..self@ }),
    {
        let mut container = self;
        container.padding = padding;
        container
    }

    /// Sets the width of the [`Container`].
    pub fn width(self, width: Length) -> (container: Self)
        ensures
            container@ == (ContainerView { width, ..self@ }),
    {
        let mut container = self;
        container.width = width;
        container
    }

    /// Sets the height of the [`Container`].
    pub fn height(self, height: Length) -> (container: Self)
        ensures
            container@ == (ContainerView { height, ..self@ }),
    {
        let mut container = self;
        container.height = height;
        container
    }

    /// Sets the maximum width of the [`Container`].
    pub fn max_width(self, max_width: u32) -> (container: Self)
        ensures
            container@ == (ContainerView { max_width, ..self@ }),
    {
        let mut container = self;
        container.max_width = max_width;
        container
    }

    /// Sets the maximum height of the [`Container`] in pixels.
    pub fn max_height(self, max_height: u32) -> (container: Self)
        ensures
            container@ == (ContainerView { max_height, ..self@ }),
    {
        let mut container = self;
        container.max_height = max_height;
        container
    }

    /// Sets the content alignment for the horizontal axis of the [`Container`].
    pub fn align_x(self, alignment: Horizontal) -> (container: Self)
        ensures
            container@ == (ContainerView { horizontal_alignment: alignment, ..self@ }),
    {
        let mut container = self;
        container.horizontal_alignment = alignment;
        container
    }

    /// Sets the content alignment for the vertical axis of the [`Container`].
    pub fn align_y(self, alignment: Vertical) -> (container: Self)
        ensures
            container@ == (ContainerView { vertical_alignment: alignment, ..self@ }),
    {
        let mut container = self;
        container.vertical_alignment = alignment;
        container
    }

    /// Centers the contents in the horizontal axis of the [`Container`].
    pub fn center_x(self) -> (container: Self)
        ensures
            container@ == (ContainerView { horizontal_alignment: Horizontal::Center, ..self@ }),
    {
        let mut container = self;
        container.horizontal_alignment = Horizontal::Center;
        container
    }

    /// Centers the contents in the vertical axis of the [`Container`].
    pub fn center_y(self) -> (container: Self)
        ensures
            container@ == (ContainerView { vertical_alignment: Vertical::Center, ..self@ }),
    {
        let mut container = self;
        container.vertical_alignment = Vertical::Center;
        container
    }

    /// Sets the style of the [`Container`].
    pub fn style(self, style: Style) -> (container: Self)
        ensures
            container@ == (ContainerView { style, ..self@ }),
    {
        let mut container = self;
        container.style = style;
        container
    }
}

/// Two containers feed the same before their content exactly if they agree
/// on padding, width, height, the largest width and height allowed and both
/// alignments: all that the place and the size of the content depend on.
/// The style is not fed.
pub proof fn lemma_container_feed<'a, Message, R: Renderer>(
    a: ContainerView<'a, Message, R>,
    b: ContainerView<'a, Message, R>,
)
    ensures
        a.own_feed() == b.own_feed() <==> {
            &&& a.padding == b.padding
            &&& a.width == b.width
            &&& a.height == b.height
            &&& a.max_width == b.max_width
            &&& a.max_height == b.max_height
            &&& a.horizontal_alignment == b.horizontal_alignment
            &&& a.vertical_alignment == b.vertical_alignment
        },
{
    if a.own_feed() == b.own_feed() {
        assert(a.own_feed()[9] == b.own_feed()[9]);
        assert(a.own_feed()[10] == b.own_feed()[10]);
        let ah = Alignment::spec_horizontal(a.horizontal_alignment);
        let bh = Alignment::spec_horizontal(b.horizontal_alignment);
        let av = Alignment::spec_vertical(a.vertical_alignment);
        let bv = Alignment::spec_vertical(b.vertical_alignment);
        lemma_word_injective(ah.spec_code(), bh.spec_code());
        lemma_word_injective(av.spec_code(), bv.spec_code());
        Alignment::lemma_code_injective(ah, bh);
        Alignment::lemma_code_injective(av, bv);
        Alignment::lemma_sides_injective(
            a.horizontal_alignment,
            b.horizontal_alignment,
            a.vertical_alignment,
            b.vertical_alignment,
        );
        assert(a.own_feed()[1] == b.own_feed()[1]);
        assert(a.own_feed()[2] == b.own_feed()[2]);
        assert(a.own_feed()[3] == b.own_feed()[3]);
        assert(a.own_feed()[4] == b.own_feed()[4]);
        assert(a.own_feed()[5] == b.own_feed()[5]);
        assert(a.own_feed()[6] == b.own_feed()[6]);
        assert(a.own_feed()[7] == b.own_feed()[7]);
        assert(a.own_feed()[8] == b.own_feed()[8]);
        lemma_word_injective(a.padding.top as u64, b.padding.top as u64);
        lemma_word_injective(a.padding.right as u64, b.padding.right as u64);
        lemma_word_injective(a.padding.bottom as u64, b.padding.bottom as u64);
        lemma_word_injective(a.padding.left as u64, b.padding.left as u64);
        lemma_word_injective(a.width.spec_code(), b.width.spec_code());
        lemma_word_injective(a.height.spec_code(), b.height.spec_code());
        lemma_word_injective(a.max_width as u64, b.max_width as u64);
        lemma_word_injective(a.max_height as u64, b.max_height as u64);
        Length::lemma_code_injective(a.width, b.width);
        Length::lemma_code_injective(a.height, b.height);
    }
}

/// Two containers that feed the same agree on every field that their
/// layout depends on, whatever their content: a change of one of these
/// fields, an alignment among them, changes what the container feeds.
pub proof fn lemma_container_fields_change_feed<'a, Message, R: Renderer>(
    a: Container<'a, Message, R>,
    b: Container<'a, Message, R>,
)
    requires
        <Container<'a, Message, R> as Widget<Message, R>>::layout_feed(&a) == <Container<
            'a,
            Message,
            R,
        > as Widget<Message, R>>::layout_feed(&b),
    ensures
        a@.padding == b@.padding,
        a@.width == b@.width,
        a@.height == b@.height,
        a@.max_width == b@.max_width,
        a@.max_height == b@.max_height,
        a@.horizontal_alignment == b@.horizontal_alignment,
        a@.vertical_alignment == b@.vertical_alignment,
{
    let one = <Container<'a, Message, R> as Widget<Message, R>>::layout_feed(&a);
    let other = <Container<'a, Message, R> as Widget<Message, R>>::layout_feed(&b);
    assert forall|i: int| 0 <= i < 11 implies a@.own_feed()[i] == b@.own_feed()[i] by {
        assert(one[i] == a@.own_feed()[i]);
        assert(other[i] == b@.own_feed()[i]);
    }
    assert(a@.own_feed() =~= b@.own_feed());
    lemma_container_feed(a@, b@);
}

/// A container keeps within its limits, whatever its content does.
pub proof fn lemma_container_keeps_within<'a, Message, R: Renderer>(
    container: Container<'a, Message, R>,
    renderer: &R,
)
    ensures
        keeps_within::<Message, R, Container<'a, Message, R>>(container, renderer),
{
}

impl<'a, Message, R: Renderer> Widget<Message, R> for Container<'a, Message, R> {
    open spec fn spec_width(&self) -> Length {
        self@.width
    }

    open spec fn spec_height(&self) -> Length {
        self@.height
    }

    /// The content, laid out inside the padding and aligned in what the
    /// container resolves to; the container is that with the padding
    /// added, brought into `limits`.
    open spec fn spec_layout(&self, renderer: &R, limits: LimitsView) -> NodeView {
        let size = self@.inner_size(renderer, limits);
        NodeView::with_children(
            limits.clamp(size.spec_pad(self@.padding)),
            seq![
                self@.content_node(renderer, limits).moved_to(
                    Point { x: self@.padding.left as i32, y: self@.padding.top as i32 },
                ).aligned(
                    Alignment::spec_horizontal(self@.horizontal_alignment),
                    Alignment::spec_vertical(self@.vertical_alignment),
                    size,
                ),
            ],
        )
    }

    open spec fn accepts(&self, children: Seq<NodeView>) -> bool {
        children.len() == 1 && self@.content.accepts(children[0].children)
    }

    /// The content is offered the event, with its own layout.
    open spec fn reacts(
        &self,
        event: Event,
        layout: LayoutView,
        cursor_position: Point,
        emitted: Seq<Message>,
        status: Status,
    ) -> bool {
        self@.content.reacts(event, layout.child(0), cursor_position, emitted, status)
    }

    /// The background of the container, then the primitives of the content.
    open spec fn spec_draw(
        &self,
        renderer: &R,
        defaults: Defaults,
        layout: LayoutView,
        cursor_position: Point,
        viewport: Rectangle,
    ) -> Seq<PrimitiveView> {
        seq![PrimitiveView::Container { bounds: layout.bounds(), style: self@.style }]
            + self@.content.spec_draw(renderer, defaults, layout.child(0), cursor_position, viewport)
    }

    open spec fn layout_feed(&self) -> Seq<Seq<u8>> {
        self@.own_feed() + self@.content.layout_feed()
    }

    open spec fn has_overlay(&self, layout: LayoutView) -> bool {
        self@.content.has_overlay(layout.child(0))
    }

    /// The overlay of the content.
    open spec fn spec_overlay(&self, layout: LayoutView) -> overlay::Shown {
        self@.content.spec_overlay(layout.child(0))
    }

    fn width(&self) -> (width: Length) {
        self.width
    }

    fn height(&self) -> (height: Length) {
        self.height
    }

    fn layout(&self, renderer: &R, limits: &Limits) -> (node: Node) {
        let inner = limits.loose().max_width(self.max_width).max_height(self.max_height).width(
            self.width,
        ).height(self.height).pad(self.padding);
        let mut content = self.content.layout(renderer, &inner.loose());
        let size = inner.resolve(content.size());
        content.move_to(Point::new(self.padding.left as i32, self.padding.top as i32));
        content.align(
            Alignment::horizontal(self.horizontal_alignment),
            Alignment::vertical(self.vertical_alignment),
            size,
        );
        let mut children: Vec<Node> = Vec::new();
        children.push(content);
        assert(crate::layout::node::views(children@) =~= seq![content@]);
        Node::with_children(limits.clamp(size.pad(self.padding)), children)
    }

    fn on_event(
        &mut self,
        event: Event,
        layout: Layout<'_>,
        cursor_position: Point,
        renderer: &R,
        clipboard: &mut Box<dyn Clipboard>,
        messages: &mut Vec<Message>,
    ) -> (status: Status)
        ensures
            final(self)@ == (ContainerView { content: final(self)@.content, ..old(self)@ }),
    {
        let layouts = layout.children();
        assert(crate::layout::views(layouts@).len() == layouts@.len());
        assert(crate::layout::views(layouts@)[0] == layouts@[0]@);
        self.content.on_event(event, layouts[0], cursor_position, renderer, clipboard, messages)
    }

    fn draw(
        &self,
        renderer: &R,
        defaults: &Defaults,
        layout: Layout<'_>,
        cursor_position: Point,
        viewport: &Rectangle,
    ) -> (primitives: Vec<Primitive>) {
        let layouts = layout.children();
        assert(crate::layout::views(layouts@).len() == layouts@.len());
        assert(crate::layout::views(layouts@)[0] == layouts@[0]@);
        let mut primitives: Vec<Primitive> = Vec::new();
        primitives.push(Primitive::Container { bounds: layout.bounds(), style: self.style });
        let mut content = self.content.draw(
            renderer,
            defaults,
            layouts[0],
            cursor_position,
            viewport,
        );
        proof {
            lemma_views_concat(primitives@, content@);
            assert(views(primitives@) =~= seq![
                PrimitiveView::Container { bounds: layout@.bounds(), style: self@.style },
            ]);
        }
        primitives.append(&mut content);
        primitives
    }

    fn hash_layout(&self, state: &mut Hasher) {
        state.feed_u64(MARK);
        state.feed_u64(self.padding.top as u64);
        state.feed_u64(self.padding.right as u64);
        state.feed_u64(self.padding.bottom as u64);
        state.feed_u64(self.padding.left as u64);
        state.feed_u64(self.width.code());
        state.feed_u64(self.height.code());
        state.feed_u64(self.max_width as u64);
        state.feed_u64(self.max_height as u64);
        state.feed_u64(Alignment::horizontal(self.horizontal_alignment).code());
        state.feed_u64(Alignment::vertical(self.vertical_alignment).code());
        assert(state@ =~= old(state)@ + self@.own_feed());
        self.content.hash_layout(state);
        assert(state@ =~= old(state)@ + (self@.own_feed() + self@.content.layout_feed()));
    }

    fn overlay(&mut self, layout: Layout<'_>) -> (overlay: Option<overlay::Element<'_, Message, R>>) {
        let layouts = layout.children();
        assert(crate::layout::views(layouts@).len() == layouts@.len());
        assert(crate::layout::views(layouts@)[0] == layouts@[0]@);
        self.content.overlay(layouts[0])
    }
}

} // verus!
