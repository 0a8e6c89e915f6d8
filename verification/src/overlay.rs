//! Display interactive elements on top of other widgets.
pub mod element;
pub mod panel;

pub use element::Element;
pub use panel::Panel;

use crate::clipboard::Clipboard;
use crate::event::{Event, Status};
use crate::hasher::Hasher;
use crate::layout::node::NodeView;
use crate::layout::{Layout, LayoutView, Node};
use crate::point::Point;
use crate::rectangle::Rectangle;
use crate::renderer::{views, Defaults, Primitive, PrimitiveView, Renderer};
use crate::size::Size;
use vstd::prelude::*;

verus! {

/// Whether `bounds` lies inside a viewport of the given size.
pub open spec fn inside_viewport(bounds: Rectangle, viewport: Size) -> bool {
    &&& 0 <= bounds.x
    &&& bounds.x + bounds.width <= viewport.width
    &&& 0 <= bounds.y
    &&& bounds.y + bounds.height <= viewport.height
}

/// What is said of an overlay that a widget gives: where it is anchored
/// and what it feeds there.
pub ghost struct Shown {
    /// The anchor of the overlay.
    pub position: Point,
    /// What the overlay feeds at its anchor.
    pub feed: Seq<Seq<u8>>,
}

impl Shown {
    /// What stands for the overlay of a widget that has none.
    pub open spec fn nothing() -> Shown {
        Shown { position: Point::spec_origin(), feed: Seq::empty() }
    }
}

/// An interactive component that can be displayed on top of other widgets.
pub trait Overlay<Message, R: Renderer> {
    /// The node that [`Overlay::layout`] computes.
    spec fn spec_layout(&self, renderer: &R, bounds: Size, position: Point) -> NodeView;

    /// Whether the overlay can answer `event` by emitting `emitted`, in
    /// that order, and returning `status`.
    spec fn reacts(
        &self,
        event: Event,
        layout: LayoutView,
        cursor_position: Point,
        emitted: Seq<Message>,
        status: Status,
    ) -> bool;

    /// The primitives that [`Overlay::draw`] emits.
    spec fn spec_draw(
        &self,
        renderer: &R,
        defaults: Defaults,
        layout: LayoutView,
        cursor_position: Point,
    ) -> Seq<PrimitiveView>;

    /// What [`Overlay::hash_layout`] feeds.
    spec fn layout_feed(&self, position: Point) -> Seq<Seq<u8>>;

    /// Returns the layout [`Node`] of the [`Overlay`].
    ///
    /// `bounds` is the size of the whole viewport and `position` the anchor
    /// of the overlay. The node lies inside the viewport.
    fn layout(&self, renderer: &R, bounds: Size, position: Point) -> (node: Node)
        ensures
            node@ == self.spec_layout(renderer, bounds, position),
            inside_viewport(node@.bounds, bounds),
    ;

    /// Processes a runtime [`Event`].
    ///
    /// Messages are appended to `messages`; what it held stays.
    fn on_event(
        &mut self,
        event: Event,
        layout: Layout<'_>,
        cursor_position: Point,
        renderer: &R,
        clipboard: &mut Box<dyn Clipboard>,
        messages: &mut Vec<Message>,
    ) -> (status: Status)
        ensures
            old(messages)@.is_prefix_of(final(messages)@),
            old(self).reacts(
                event,
                layout@,
                cursor_position,
                final(messages)@.skip(old(messages)@.len() as int),
                status,
            ),
    ;

    /// Draws the [`Overlay`]: returns its primitives, in the order in
    /// which they are to be put on the surface.
    fn draw(
        &self,
        renderer: &R,
        defaults: &Defaults,
        layout: Layout<'_>,
        cursor_position: Point,
    ) -> (primitives: Vec<Primitive>)
        ensures
            views(primitives@) == self.spec_draw(renderer, *defaults, layout@, cursor_position),
    ;

    /// Computes the _layout_ hash of the [`Overlay`]: feeds `state` with
    /// everything that the layout depends on.
    fn hash_layout(&self, state: &mut Hasher, position: Point)
        ensures
            final(state)@ == old(state)@ + self.layout_feed(position),
    ;
}

} // verus!
