//! A generic widget.
use crate::clipboard::Clipboard;
use crate::event::{Event, Status};
use crate::hasher::Hasher;
use crate::layout::limits::LimitsView;
use crate::layout::node::NodeView;
use crate::layout::{Layout, LayoutView, Limits, Node};
use crate::length::Length;
use crate::mapper::{gives_all, Mapper};
use crate::overlay;
use crate::point::Point;
use crate::rectangle::Rectangle;
use crate::renderer::{views, Defaults, Primitive, PrimitiveView, Renderer};
use crate::widget::Widget;
use vstd::prelude::*;

verus! {

/// A generic [`Widget`].
///
/// It is useful to build composable user interfaces that do not leak
/// implementation details in their view logic.
#[verifier::reject_recursive_types(Message)]
#[verifier::reject_recursive_types(R)]
pub struct Element<'a, Message, R: Renderer> {
    /// The widget that the element holds.
    pub widget: Box<dyn Widget<Message, R> + 'a>,
}

impl<'a, Message, R: Renderer> Element<'a, Message, R> {
    /// The width policy of the widget.
    pub open spec fn spec_width(&self) -> Length {
        self.widget.spec_width()
    }

    /// The height policy of the widget.
    pub open spec fn spec_height(&self) -> Length {
        self.widget.spec_height()
    }

    /// The node that the widget computes.
    pub open spec fn spec_layout(&self, renderer: &R, limits: LimitsView) -> NodeView {
        self.widget.spec_layout(renderer, limits)
    }

    /// Whether a node with the given children has the shape of the widget.
    pub open spec fn accepts(&self, children: Seq<NodeView>) -> bool {
        self.widget.accepts(children)
    }

    /// Whether the widget can answer `event` by emitting `emitted`, in that
    /// order, and returning `status`.
    pub open spec fn reacts(
        &self,
        event: Event,
        layout: LayoutView,
        cursor_position: Point,
        emitted: Seq<Message>,
        status: Status,
    ) -> bool {
        self.widget.reacts(event, layout, cursor_position, emitted, status)
    }

    /// The primitives that the widget emits.
    pub open spec fn spec_draw(
        &self,
        renderer: &R,
        defaults: Defaults,
        layout: LayoutView,
        cursor_position: Point,
        viewport: Rectangle,
    ) -> Seq<PrimitiveView> {
        self.widget.spec_draw(renderer, defaults, layout, cursor_position, viewport)
    }

    /// What the widget feeds.
    pub open spec fn layout_feed(&self) -> Seq<Seq<u8>> {
        self.widget.layout_feed()
    }

    /// Whether the widget has an overlay to show.
    pub open spec fn has_overlay(&self, layout: LayoutView) -> bool {
        self.widget.has_overlay(layout)
    }

    /// The overlay that the widget gives, where it has one: its anchor and
    /// what it feeds.
    pub open spec fn spec_overlay(&self, layout: LayoutView) -> overlay::Shown {
        self.widget.spec_overlay(layout)
    }

    /// Creates a new [`Element`] containing the given [`Widget`].
    pub fn new(widget: Box<dyn Widget<Message, R> + 'a>) -> (element: Self)
        ensures
            element == (Element { widget }),
    {
        Element { widget }
    }

    /// Applies a transformation to the produced message of the [`Element`].
    ///
    /// The new element holds this one as a [`Mapped`]: the only way in
    /// which the message type of a widget changes. It has the policies,
    /// the layout, the shape, the primitives, the feed and the overlays of
    /// this one. On an event it emits what `f` gives for each message that
    /// this one emits: as many, in the same order, with the same status.
    pub fn map<B: 'a, F: Fn(Message) -> B + 'a>(self, f: F) -> (element: Element<'a, B, R>) where
        Message: 'a,
        R: 'a,

        requires
            forall|message: Message| call_requires(f, (message,)),
        ensures
            element.spec_width() == self.spec_width(),
            element.spec_height() == self.spec_height(),
            forall|renderer: &R, limits: LimitsView| #[trigger]
                element.spec_layout(renderer, limits) == self.spec_layout(renderer, limits),
            forall|children: Seq<NodeView>| #[trigger]
                element.accepts(children) == self.accepts(children),
            forall|
                event: Event,
                layout: LayoutView,
                cursor_position: Point,
                emitted: Seq<B>,
                status: Status,
            | #[trigger]
                element.reacts(event, layout, cursor_position, emitted, status) <==> exists|
                    original: Seq<Message>,
                |
                    {
                        &&& #[trigger] self.reacts(event, layout, cursor_position, original, status)
                        &&& gives_all(f, original, emitted)
                    },
            forall|
                renderer: &R,
                defaults: Defaults,
                layout: LayoutView,
                cursor_position: Point,
                viewport: Rectangle,
            | #[trigger]
                element.spec_draw(renderer, defaults, layout, cursor_position, viewport)
                    == self.spec_draw(renderer, defaults, layout, cursor_position, viewport),
            element.layout_feed() == self.layout_feed(),
            forall|layout: LayoutView| #[trigger]
                element.has_overlay(layout) == self.has_overlay(layout),
            forall|layout: LayoutView| #[trigger]
                element.spec_overlay(layout) == self.spec_overlay(layout),
    {
        let mapped = Mapped::new(self, f);
        let ghost inside = mapped;
        let element = Element::<'a, B, R> { widget: Box::new(mapped) };
        proof {
            assert forall|
                event: Event,
                layout: LayoutView,
                cursor_position: Point,
                emitted: Seq<B>,
                status: Status,
            | #[trigger]
                element.reacts(event, layout, cursor_position, emitted, status) <==> exists|
                    original: Seq<Message>,
                |
                    {
                        &&& #[trigger] self.reacts(event, layout, cursor_position, original, status)
                        &&& gives_all(f, original, emitted)
                    } by {
                assert(element.reacts(event, layout, cursor_position, emitted, status)
                    == inside.reacts(event, layout, cursor_position, emitted, status));
                if inside.reacts(event, layout, cursor_position, emitted, status) {
                    let original = choose|original: Seq<Message>|
                        {
                            &&& #[trigger] inside.content_reacts(
                                event,
                                layout,
                                cursor_position,
                                original,
                                status,
                            )
                            &&& inside.mapper.maps_all(original, emitted)
                        };
                    inside.mapper.lemma_wraps(f, original, emitted);
                    assert(self.reacts(event, layout, cursor_position, original, status));
                }
                if exists|original: Seq<Message>|
                    {
                        &&& #[trigger] self.reacts(event, layout, cursor_position, original, status)
                        &&& gives_all(f, original, emitted)
                    } {
                    let original = choose|original: Seq<Message>|
                        {
                            &&& #[trigger] self.reacts(
                                event,
                                layout,
                                cursor_position,
                                original,
                                status,
                            )
                            &&& gives_all(f, original, emitted)
                        };
                    inside.mapper.lemma_wraps(f, original, emitted);
                    assert(inside.content_reacts(event, layout, cursor_position, original, status));
                }
            }
        }
        element
    }

    /// Returns the width of the [`Element`].
    pub fn width(&self) -> (width: Length)
        ensures
            width == self.spec_width(),
    {
        self.widget.width()
    }

    /// Returns the height of the [`Element`].
    pub fn height(&self) -> (height: Length)
        ensures
            height == self.spec_height(),
    {
        self.widget.height()
    }

    /// Computes the layout of the [`Element`] in the given [`Limits`].
    pub fn layout(&self, renderer: &R, limits: &Limits) -> (node: Node)
        ensures
            node@ == self.spec_layout(renderer, limits@),
            limits@.contains(node@.size()),
            self.accepts(node@.children),
    {
        self.widget.layout(renderer, limits)
    }

    /// Processes a runtime [`Event`].
    pub fn on_event(
        &mut self,
        event: Event,
        layout: Layout<'_>,
        cursor_position: Point,
        renderer: &R,
        clipboard: &mut Box<dyn Clipboard>,
        messages: &mut Vec<Message>,
    ) -> (status: Status)
        requires
            old(self).accepts(layout@.node.children),
        ensures
            old(messages)@.is_prefix_of(final(messages)@),
            old(self).reacts(
                event,
                layout@,
                cursor_position,
                final(messages)@.skip(old(messages)@.len() as int),
                status,
            ),
            final(self).accepts(layout@.node.children),
    {
        self.widget.on_event(event, layout, cursor_position, renderer, clipboard, messages)
    }

    /// Draws the [`Element`] and its children using the given [`Layout`].
    pub fn draw(
        &self,
        renderer: &R,
        defaults: &Defaults,
        layout: Layout<'_>,
        cursor_position: Point,
        viewport: &Rectangle,
    ) -> (primitives: Vec<Primitive>)
        requires
            self.accepts(layout@.node.children),
        ensures
            views(primitives@) == self.spec_draw(
                renderer,
                *defaults,
                layout@,
                cursor_position,
                *viewport,
            ),
    {
        self.widget.draw(renderer, defaults, layout, cursor_position, viewport)
    }

    /// Computes the _layout_ hash of the [`Element`].
    pub fn hash_layout(&self, state: &mut Hasher)
        ensures
            final(state)@ == old(state)@ + self.layout_feed(),
    {
        self.widget.hash_layout(state);
    }

    /// Returns the overlay of the [`Element`], if there is any.
    pub fn overlay(&mut self, layout: Layout<'_>) -> (overlay: Option<overlay::Element<'_, Message, R>>)
        requires
            old(self).accepts(layout@.node.children),
        ensures
            overlay.is_some() == old(self).has_overlay(layout@),
            overlay matches Some(element) ==> element.shown() == old(self).spec_overlay(layout@),
    {
        self.widget.overlay(layout)
    }
}

/// An [`Element`] is a widget itself: it does what the widget inside does.
impl<'a, Message, R: Renderer> Widget<Message, R> for Element<'a, Message, R> {
    open spec fn spec_width(&self) -> Length {
        Element::spec_width(self)
    }

    open spec fn spec_height(&self) -> Length {
        Element::spec_height(self)
    }

    open spec fn spec_layout(&self, renderer: &R, limits: LimitsView) -> NodeView {
        Element::spec_layout(self, renderer, limits)
    }

    open spec fn accepts(&self, children: Seq<NodeView>) -> bool {
        Element::accepts(self, children)
    }

    open spec fn reacts(
        &self,
        event: Event,
        layout: LayoutView,
        cursor_position: Point,
        emitted: Seq<Message>,
        status: Status,
    ) -> bool {
        Element::reacts(self, event, layout, cursor_position, emitted, status)
    }

    open spec fn spec_draw(
        &self,
        renderer: &R,
        defaults: Defaults,
        layout: LayoutView,
        cursor_position: Point,
        viewport: Rectangle,
    ) -> Seq<PrimitiveView> {
        Element::spec_draw(self, renderer, defaults, layout, cursor_position, viewport)
    }

    open spec fn layout_feed(&self) -> Seq<Seq<u8>> {
        Element::layout_feed(self)
    }

    open spec fn has_overlay(&self, layout: LayoutView) -> bool {
        Element::has_overlay(self, layout)
    }

    open spec fn spec_overlay(&self, layout: LayoutView) -> overlay::Shown {
        Element::spec_overlay(self, layout)
    }

    fn width(&self) -> (width: Length) {
        Element::width(self)
    }

    fn height(&self) -> (height: Length) {
        Element::height(self)
    }

    fn layout(&self, renderer: &R, limits: &Limits) -> (node: Node) {
        Element::layout(self, renderer, limits)
    }

    fn on_event(
        &mut self,
        event: Event,
        layout: Layout<'_>,
        cursor_position: Point,
        renderer: &R,
        clipboard: &mut Box<dyn Clipboard>,
        messages: &mut Vec<Message>,
    ) -> (status: Status) {
        Element::on_event(self, event, layout, cursor_position, renderer, clipboard, messages)
    }

    fn draw(
        &self,
        renderer: &R,
        defaults: &Defaults,
        layout: Layout<'_>,
        cursor_position: Point,
        viewport: &Rectangle,
    ) -> (primitives: Vec<Primitive>) {
        Element::draw(self, renderer, defaults, layout, cursor_position, viewport)
    }

    fn hash_layout(&self, state: &mut Hasher) {
        Element::hash_layout(self, state)
    }

    fn overlay(&mut self, layout: Layout<'_>) -> (overlay: Option<overlay::Element<'_, Message, R>>) {
        Element::overlay(self, layout)
    }
}

/// An element whose messages are passed through a function.
///
/// It lays out, draws and feeds as the element inside does. On an event it
/// lets the element inside emit into a buffer of its own and hands on what
/// the function gives for each message: as many, in the same order.
#[verifier::reject_recursive_types(A)]
#[verifier::reject_recursive_types(B)]
#[verifier::reject_recursive_types(F)]
#[verifier::reject_recursive_types(R)]
pub struct Mapped<'a, A, B, R: Renderer, F: Fn(A) -> B> {
    /// The element whose messages are mapped.
    pub widget: Element<'a, A, R>,
    /// The function that the messages are passed through.
    pub mapper: Mapper<A, B, F>,
}

impl<'a, A, B, R: Renderer, F: Fn(A) -> B> Mapped<'a, A, B, R, F> {
    /// Whether the element inside can answer `event` by emitting
    /// `original`, in that order, and returning `status`.
    pub open spec fn content_reacts(
        &self,
        event: Event,
        layout: LayoutView,
        cursor_position: Point,
        original: Seq<A>,
        status: Status,
    ) -> bool {
        self.widget.reacts(event, layout, cursor_position, original, status)
    }

    /// Wraps `widget` so that each message it produces is passed through
    /// `mapper`.
    pub fn new(widget: Element<'a, A, R>, mapper: F) -> (mapped: Mapped<'a, A, B, R, F>)
        requires
            forall|message: A| call_requires(mapper, (message,)),
        ensures
            mapped == (Mapped { widget, mapper: mapped.mapper }),
            mapped.mapper.wraps(mapper),
    {
        Mapped { widget, mapper: Mapper::new(mapper) }
    }

    fn draw_content(
        &self,
        renderer: &R,
        defaults: &Defaults,
        layout: Layout<'_>,
        cursor_position: Point,
        viewport: &Rectangle,
    ) -> (primitives: Vec<Primitive>)
        requires
            self.widget.accepts(layout@.node.children),
        ensures
            views(primitives@) == self.widget.spec_draw(
                renderer,
                *defaults,
                layout@,
                cursor_position,
                *viewport,
            ),
    {
        self.widget.draw(renderer, defaults, layout, cursor_position, viewport)
    }
}

impl<'a, A, B, R: Renderer, F: Fn(A) -> B> Widget<B, R> for Mapped<'a, A, B, R, F> {
    open spec fn spec_width(&self) -> Length {
        self.widget.spec_width()
    }

    open spec fn spec_height(&self) -> Length {
        self.widget.spec_height()
    }

    open spec fn spec_layout(&self, renderer: &R, limits: LimitsView) -> NodeView {
        self.widget.spec_layout(renderer, limits)
    }

    open spec fn accepts(&self, children: Seq<NodeView>) -> bool {
        self.widget.accepts(children)
    }

    /// The element inside answers with some messages, and what is emitted
    /// is what the function gives for each of them: as many, in the same
    /// order.
    open spec fn reacts(
        &self,
        event: Event,
        layout: LayoutView,
        cursor_position: Point,
        emitted: Seq<B>,
        status: Status,
    ) -> bool {
        exists|original: Seq<A>|
            {
                &&& #[trigger] self.content_reacts(event, layout, cursor_position, original, status)
                &&& self.mapper.maps_all(original, emitted)
            }
    }

    open spec fn spec_draw(
        &self,
        renderer: &R,
        defaults: Defaults,
        layout: LayoutView,
        cursor_position: Point,
        viewport: Rectangle,
    ) -> Seq<PrimitiveView> {
        self.widget.spec_draw(renderer, defaults, layout, cursor_position, viewport)
    }

    open spec fn layout_feed(&self) -> Seq<Seq<u8>> {
        self.widget.layout_feed()
    }

    open spec fn has_overlay(&self, layout: LayoutView) -> bool {
        self.widget.has_overlay(layout)
    }

    /// The overlay of the element inside: mapping its messages moves
    /// nothing and feeds nothing else.
    open spec fn spec_overlay(&self, layout: LayoutView) -> overlay::Shown {
        self.widget.spec_overlay(layout)
    }

    fn width(&self) -> (width: Length) {
        self.widget.width()
    }

    fn height(&self) -> (height: Length) {
        self.widget.height()
    }

    fn layout(&self, renderer: &R, limits: &Limits) -> (node: Node) {
        self.widget.layout(renderer, limits)
    }

    fn on_event(
        &mut self,
        event: Event,
        layout: Layout<'_>,
        cursor_position: Point,
        renderer: &R,
        clipboard: &mut Box<dyn Clipboard>,
        messages: &mut Vec<B>,
    ) -> (status: Status)
        ensures
            final(self).mapper == old(self).mapper,
    {
        let mut original_messages: Vec<A> = Vec::new();
        let status = self.widget.on_event(
            event,
            layout,
            cursor_position,
            renderer,
            clipboard,
            &mut original_messages,
        );
        assert(original_messages@.skip(0) =~= original_messages@);
        let ghost original = original_messages@;
        self.mapper.apply_all(original_messages, messages);
        assert(old(self).content_reacts(event, layout@, cursor_position, original, status));
        status
    }

    fn draw(
        &self,
        renderer: &R,
        defaults: &Defaults,
        layout: Layout<'_>,
        cursor_position: Point,
        viewport: &Rectangle,
    ) -> (primitives: Vec<Primitive>) {
        self.draw_content(renderer, defaults, layout, cursor_position, viewport)
    }

    fn hash_layout(&self, state: &mut Hasher) {
        self.widget.hash_layout(state);
    }

    fn overlay(&mut self, layout: Layout<'_>) -> (overlay: Option<overlay::Element<'_, B, R>>) {
        let mapper = &self.mapper;
        match self.widget.overlay(layout) {
            Some(found) => Some(found.map(move |message: A| -> (mapped: B) { mapper.apply(message) })),
            None => None,
        }
    }
}

} // verus!
