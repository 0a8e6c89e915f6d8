//! A generic overlay.
use crate::clipboard::Clipboard;
use crate::event::{Event, Status};
use crate::hasher::Hasher;
use crate::layout::node::NodeView;
use crate::layout::{Layout, LayoutView, Node};
use crate::mapper::{gives_all, Mapper};
use crate::overlay::{inside_viewport, Overlay, Shown};
use crate::point::Point;
use crate::renderer::{views, Defaults, Primitive, PrimitiveView, Renderer};
use crate::size::Size;
use crate::vector::Vector;
use vstd::prelude::*;

verus! {

/// A generic [`Overlay`], anchored at a position.
#[verifier::reject_recursive_types(Message)]
#[verifier::reject_recursive_types(R)]
pub struct Element<'a, Message, R: Renderer> {
    /// The anchor of the overlay.
    pub position: Point,
    /// The overlay.
    pub overlay: Box<dyn Overlay<Message, R> + 'a>,
}

impl<'a, Message, R: Renderer> Element<'a, Message, R> {
    /// The anchor of the [`Element`].
    pub open spec fn spec_position(&self) -> Point {
        self.position
    }

    /// The node that the overlay computes at the anchor.
    pub open spec fn spec_layout(&self, renderer: &R, bounds: Size) -> NodeView {
        self.overlay.spec_layout(renderer, bounds, self.position)
    }

    /// Whether the overlay can answer `event` by emitting `emitted`, in
    /// that order, and returning `status`.
    pub open spec fn reacts(
        &self,
        event: Event,
        layout: LayoutView,
        cursor_position: Point,
        emitted: Seq<Message>,
        status: Status,
    ) -> bool {
        self.overlay.reacts(event, layout, cursor_position, emitted, status)
    }

    /// The primitives that the overlay emits.
    pub open spec fn spec_draw(
        &self,
        renderer: &R,
        defaults: Defaults,
        layout: LayoutView,
        cursor_position: Point,
    ) -> Seq<PrimitiveView> {
        self.overlay.spec_draw(renderer, defaults, layout, cursor_position)
    }

    /// What the overlay feeds at `position`.
    pub open spec fn feed_at(&self, position: Point) -> Seq<Seq<u8>> {
        self.overlay.layout_feed(position)
    }

    /// What the overlay feeds at the anchor.
    pub open spec fn layout_feed(&self) -> Seq<Seq<u8>> {
        self.feed_at(self.spec_position())
    }

    /// Where the element is anchored and what it feeds there.
    pub open spec fn shown(&self) -> Shown {
        Shown { position: self.spec_position(), feed: self.layout_feed() }
    }

    /// Creates a new [`Element`] containing the given [`Overlay`].
    pub fn new(position: Point, overlay: Box<dyn Overlay<Message, R> + 'a>) -> (element: Self)
        ensures
            element == (Element { position, overlay }),
    {
        Element { position, overlay }
    }

    /// The anchor of the [`Element`].
    pub fn position(&self) -> (position: Point)
        ensures
            position == self.spec_position(),
    {
        self.position
    }

    /// The [`Element`] with its anchor moved by `translation`; the overlay
    /// stays what it was.
    pub open spec fn translated(self, translation: Vector) -> Self {
        Element { position: self.position.spec_offset(translation), ..self }
    }

    /// Moving the anchor changes the anchor and nothing else.
    pub proof fn lemma_translated(self, translation: Vector)
        ensures
            self.translated(translation).spec_position() == self.spec_position().spec_offset(
                translation,
            ),
            forall|position: Point| #[trigger]
                self.translated(translation).feed_at(position) == self.feed_at(position),
            forall|
                event: Event,
                layout: LayoutView,
                cursor_position: Point,
                emitted: Seq<Message>,
                status: Status,
            | #[trigger]
                self.translated(translation).reacts(event, layout, cursor_position, emitted, status)
                    == self.reacts(event, layout, cursor_position, emitted, status),
    {
    }

    /// Translates the [`Element`]: moves its anchor by `translation`.
    pub fn translate(self, translation: Vector) -> (element: Self)
        ensures
            element == self.translated(translation),
            element.spec_position() == self.spec_position().spec_offset(translation),
    {
        let mut element = self;
        element.position = element.position.offset(translation);
        element
    }

    /// Applies a transformation to the produced message of the [`Element`].
    ///
    /// The new element holds this one as a [`Mapped`], at the same anchor.
    /// It has the layout, the primitives and the feed of this one: mapping
    /// changes the messages and nothing else. On an event it emits what
    /// `f` gives for each message that this one emits: as many, in the
    /// same order, with the same status.
    pub fn map<B: 'a, F: Fn(Message) -> B + 'a>(self, f: F) -> (element: Element<'a, B, R>) where
        Message: 'a,
        R: 'a,

        requires
            forall|message: Message| call_requires(f, (message,)),
        ensures
            element.spec_position() == self.spec_position(),
            forall|renderer: &R, bounds: Size| #[trigger]
                element.spec_layout(renderer, bounds) == self.spec_layout(renderer, bounds),
            forall|
                event: Event,
                layout: LayoutView,
                cursor_position: Point,
                emitted: Seq<B>,
                status: Status,
            | #[trigger]
                element.reacts(event, layout, cursor_position, emitted, status) <==> exists|
                    original: Seq<Message>,
                |
                    {
                        &&& #[trigger] self.reacts(event, layout, cursor_position, original, status)
                        &&& gives_all(f, original, emitted)
                    },
            forall|renderer: &R, defaults: Defaults, layout: LayoutView, cursor_position: Point|
                #[trigger] element.spec_draw(renderer, defaults, layout, cursor_position)
                    == self.spec_draw(renderer, defaults, layout, cursor_position),
            forall|position: Point| #[trigger] element.feed_at(position) == self.feed_at(position),
            element.layout_feed() == self.layout_feed(),
    {
        let position = self.position;
        let mapped = Mapped::new(self, f);
        let ghost inside = mapped;
        let element = Element::<'a, B, R> { position, overlay: Box::new(mapped) };
        proof {
            assert forall|
                event: Event,
                layout: LayoutView,
                cursor_position: Point,
                emitted: Seq<B>,
                status: Status,
            | #[trigger]
                element.reacts(event, layout, cursor_position, emitted, status) <==> exists|
                    original: Seq<Message>,
                |
                    {
                        &&& #[trigger] self.reacts(event, layout, cursor_position, original, status)
                        &&& gives_all(f, original, emitted)
                    } by {
                assert(element.reacts(event, layout, cursor_position, emitted, status)
                    == inside.reacts(event, layout, cursor_position, emitted, status));
                if inside.reacts(event, layout, cursor_position, emitted, status) {
                    let original = choose|original: Seq<Message>|
                        {
                            &&& #[trigger] inside.content_reacts(
                                event,
                                layout,
                                cursor_position,
                                original,
                                status,
                            )
                            &&& inside.mapper.maps_all(original, emitted)
                        };
                    inside.mapper.lemma_wraps(f, original, emitted);
                    assert(self.reacts(event, layout, cursor_position, original, status));
                }
                if exists|original: Seq<Message>|
                    {
                        &&& #[trigger] self.reacts(event, layout, cursor_position, original, status)
                        &&& gives_all(f, original, emitted)
                    } {
                    let original = choose|original: Seq<Message>|
                        {
                            &&& #[trigger] self.reacts(
                                event,
                                layout,
                                cursor_position,
                                original,
                                status,
                            )
                            &&& gives_all(f, original, emitted)
                        };
                    inside.mapper.lemma_wraps(f, original, emitted);
                    assert(inside.content_reacts(event, layout, cursor_position, original, status));
                }
            }
        }
        element
    }

    /// Computes the layout of the [`Element`] in the given bounds.
    pub fn layout(&self, renderer: &R, bounds: Size) -> (node: Node)
        ensures
            node@ == self.spec_layout(renderer, bounds),
            inside_viewport(node@.bounds, bounds),
    {
        self.overlay.layout(renderer, bounds, self.position)
    }

    /// Processes a runtime [`Event`].
    pub fn on_event(
        &mut self,
        event: Event,
        layout: Layout<'_>,
        cursor_position: Point,
        renderer: &R,
        clipboard: &mut Box<dyn Clipboard>,
        messages: &mut Vec<Message>,
    ) -> (status: Status)
        ensures
            old(messages)@.is_prefix_of(final(messages)@),
            old(self).reacts(
                event,
                layout@,
                cursor_position,
                final(messages)@.skip(old(messages)@.len() as int),
                status,
            ),
            final(self).spec_position() == old(self).spec_position(),
    {
        self.overlay.on_event(event, layout, cursor_position, renderer, clipboard, messages)
    }

    /// Draws the [`Element`] and its children using the given [`Layout`].
    pub fn draw(
        &self,
        renderer: &R,
        defaults: &Defaults,
        layout: Layout<'_>,
        cursor_position: Point,
    ) -> (primitives: Vec<Primitive>)
        ensures
            views(primitives@) == self.spec_draw(renderer, *defaults, layout@, cursor_position),
    {
        self.overlay.draw(renderer, defaults, layout, cursor_position)
    }

    /// Computes the _layout_ hash of the [`Element`].
    pub fn hash_layout(&self, state: &mut Hasher)
        ensures
            final(state)@ == old(state)@ + self.layout_feed(),
    {
        self.overlay.hash_layout(state, self.position);
    }
}

/// An overlay element whose messages are passed through a function.
#[verifier::reject_recursive_types(A)]
#[verifier::reject_recursive_types(B)]
#[verifier::reject_recursive_types(F)]
#[verifier::reject_recursive_types(R)]
pub struct Mapped<'a, A, B, R: Renderer, F: Fn(A) -> B> {
    /// The element whose messages are mapped. Its overlay is laid out and
    /// fed at the position that the outer element hands in.
    pub content: Element<'a, A, R>,
    /// The function that the messages are passed through.
    pub mapper: Mapper<A, B, F>,
}

impl<'a, A, B, R: Renderer, F: Fn(A) -> B> Mapped<'a, A, B, R, F> {
    /// Whether the overlay inside can answer `event` by emitting
    /// `original`, in that order, and returning `status`.
    pub open spec fn content_reacts(
        &self,
        event: Event,
        layout: LayoutView,
        cursor_position: Point,
        original: Seq<A>,
        status: Status,
    ) -> bool {
        self.content.reacts(event, layout, cursor_position, original, status)
    }

    /// The primitives that the overlay inside emits.
    pub open spec fn content_draws(
        &self,
        renderer: &R,
        defaults: Defaults,
        layout: LayoutView,
        cursor_position: Point,
    ) -> Seq<PrimitiveView> {
        self.content.spec_draw(renderer, defaults, layout, cursor_position)
    }

    /// Wraps `content` so that each message it produces is passed through
    /// `mapper`.
    pub fn new(content: Element<'a, A, R>, mapper: F) -> (map: Mapped<'a, A, B, R, F>)
        requires
            forall|message: A| call_requires(mapper, (message,)),
        ensures
            map == (Mapped { content, mapper: map.mapper }),
            map.mapper.wraps(mapper),
    {
        Mapped { content, mapper: Mapper::new(mapper) }
    }
}

impl<'a, A, B, R: Renderer, F: Fn(A) -> B> Overlay<B, R> for Mapped<'a, A, B, R, F> {
    open spec fn spec_layout(&self, renderer: &R, bounds: Size, position: Point) -> NodeView {
        self.content.overlay.spec_layout(renderer, bounds, position)
    }

    /// The overlay inside answers with some messages, and what is emitted
    /// is what the function gives for each of them: as many, in the same
    /// order.
    open spec fn reacts(
        &self,
        event: Event,
        layout: LayoutView,
        cursor_position: Point,
        emitted: Seq<B>,
        status: Status,
    ) -> bool {
        exists|original: Seq<A>|
            {
                &&& #[trigger] self.content_reacts(event, layout, cursor_position, original, status)
                &&& self.mapper.maps_all(original, emitted)
            }
    }

    open spec fn spec_draw(
        &self,
        renderer: &R,
        defaults: Defaults,
        layout: LayoutView,
        cursor_position: Point,
    ) -> Seq<PrimitiveView> {
        self.content_draws(renderer, defaults, layout, cursor_position)
    }

    open spec fn layout_feed(&self, position: Point) -> Seq<Seq<u8>> {
        self.content.feed_at(position)
    }

    fn layout(&self, renderer: &R, bounds: Size, position: Point) -> (node: Node) {
        self.content.overlay.layout(renderer, bounds, position)
    }

    fn on_event(
        &mut self,
        event: Event,
        layout: Layout<'_>,
        cursor_position: Point,
        renderer: &R,
        clipboard: &mut Box<dyn Clipboard>,
        messages: &mut Vec<B>,
    ) -> (status: Status)
        ensures
            final(self).mapper == old(self).mapper,
    {
        let mut original_messages: Vec<A> = Vec::new();
        let event_status = self.content.on_event(
            event,
            layout,
            cursor_position,
            renderer,
            clipboard,
            &mut original_messages,
        );
        assert(original_messages@.skip(0) =~= original_messages@);
        let ghost original = original_messages@;
        self.mapper.apply_all(original_messages, messages);
        assert(old(self).content_reacts(event, layout@, cursor_position, original, event_status));
        event_status
    }

    fn draw(
        &self,
        renderer: &R,
        defaults: &Defaults,
        layout: Layout<'_>,
        cursor_position: Point,
    ) -> (primitives: Vec<Primitive>) {
        self.content.draw(renderer, defaults, layout, cursor_position)
    }

    fn hash_layout(&self, state: &mut Hasher, position: Point) {
        self.content.overlay.hash_layout(state, position);
    }
}

} // verus!
