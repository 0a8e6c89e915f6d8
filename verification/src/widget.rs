//! Use the built-in widgets or create your own.
pub mod checkbox;
pub mod children;
pub mod container;
pub mod progress_bar;
pub mod row;
pub mod space;
pub mod text;

pub use checkbox::Checkbox;
pub use container::Container;
pub use progress_bar::ProgressBar;
pub use row::Row;
pub use space::Space;
pub use text::Text;

use crate::clipboard::Clipboard;
use crate::event::{Event, Status};
use crate::hasher::{digest, Hasher};
use crate::layout::limits::LimitsView;
use crate::layout::node::NodeView;
use crate::layout::{Layout, LayoutView, Limits, Node};
use crate::length::Length;
use crate::overlay;
use crate::point::Point;
use crate::rectangle::Rectangle;
use crate::renderer::{views, Defaults, Primitive, PrimitiveView, Renderer};
use vstd::prelude::*;

verus! {

/// A component that displays information and allows interaction.
///
/// Each exec method has a spec function that says what it gives, so that a
/// container can say what it does in terms of what its children do.
pub trait Widget<Message, R: Renderer> {
    /// The width policy of the widget.
    spec fn spec_width(&self) -> Length;

    /// The height policy of the widget.
    spec fn spec_height(&self) -> Length;

    /// The node that [`Widget::layout`] computes.
    spec fn spec_layout(&self, renderer: &R, limits: LimitsView) -> NodeView;

    /// Whether a node with the given children has the shape of this
    /// widget: as many children as the widget has, each of the shape of its
    /// widget, in the same order.
    spec fn accepts(&self, children: Seq<NodeView>) -> bool;

    /// Whether the widget can answer `event` by emitting `emitted`, in that
    /// order, and returning `status`.
    spec fn reacts(
        &self,
        event: Event,
        layout: LayoutView,
        cursor_position: Point,
        emitted: Seq<Message>,
        status: Status,
    ) -> bool;

    /// The primitives that [`Widget::draw`] emits.
    spec fn spec_draw(
        &self,
        renderer: &R,
        defaults: Defaults,
        layout: LayoutView,
        cursor_position: Point,
        viewport: Rectangle,
    ) -> Seq<PrimitiveView>;

    /// What [`Widget::hash_layout`] feeds.
    spec fn layout_feed(&self) -> Seq<Seq<u8>>;

    /// Whether the widget has an overlay to show.
    spec fn has_overlay(&self, layout: LayoutView) -> bool;

    /// The overlay that the widget gives, where it has one: its anchor and
    /// what it feeds.
    spec fn spec_overlay(&self, layout: LayoutView) -> overlay::Shown;

    /// Returns the width of the [`Widget`].
    fn width(&self) -> (width: Length)
        ensures
            width == self.spec_width(),
    ;

    /// Returns the height of the [`Widget`].
    fn height(&self) -> (height: Length)
        ensures
            height == self.spec_height(),
    ;

    /// Returns the [`Node`] of the [`Widget`].
    ///
    /// The node is determined by the widget, the renderer and the limits;
    /// its size lies within the limits, and it has the shape of the widget.
    fn layout(&self, renderer: &R, limits: &Limits) -> (node: Node)
        ensures
            node@ == self.spec_layout(renderer, limits@),
            limits@.contains(node@.size()),
            self.accepts(node@.children),
    ;

    /// Processes a runtime [`Event`].
    ///
    /// Messages are appended to `messages`; what it held stays. The layout
    /// must have the shape of the widget, and still has it afterwards.
    fn on_event(
        &mut self,
        event: Event,
        layout: Layout<'_>,
        cursor_position: Point,
        renderer: &R,
        clipboard: &mut Box<dyn Clipboard>,
        messages: &mut Vec<Message>,
    ) -> (status: Status)
        requires
            old(self).accepts(layout@.node.children),
        ensures
            old(messages)@.is_prefix_of(final(messages)@),
            old(self).reacts(
                event,
                layout@,
                cursor_position,
                final(messages)@.skip(old(messages)@.len() as int),
                status,
            ),
            final(self).accepts(layout@.node.children),
    ;

    /// Draws the [`Widget`]: returns its primitives, in the order in which
    /// they are to be put on the surface.
    fn draw(
        &self,
        renderer: &R,
        defaults: &Defaults,
        layout: Layout<'_>,
        cursor_position: Point,
        viewport: &Rectangle,
    ) -> (primitives: Vec<Primitive>)
        requires
            self.accepts(layout@.node.children),
        ensures
            views(primitives@) == self.spec_draw(
                renderer,
                *defaults,
                layout@,
                cursor_position,
                *viewport,
            ),
    ;

    /// Computes the _layout_ hash of the [`Widget`]: feeds `state` with
    /// the kind of the widget and everything that its layout depends on.
    fn hash_layout(&self, state: &mut Hasher)
        ensures
            final(state)@ == old(state)@ + self.layout_feed(),
    ;

    /// Returns the overlay of the [`Widget`], if there is any: the one that
    /// [`Widget::spec_overlay`] describes.
    fn overlay(&mut self, layout: Layout<'_>) -> (overlay: Option<overlay::Element<'_, Message, R>>)
        requires
            old(self).accepts(layout@.node.children),
        ensures
            overlay.is_some() == old(self).has_overlay(layout@),
            overlay matches Some(element) ==> element.shown() == old(self).spec_overlay(layout@),
    ;
}

/// The fingerprint of the layout of `widget`: that of what it feeds.
///
/// Two widgets that feed the same have the same fingerprint. While the
/// fingerprint of a tree stays what it was, the layout computed for it can
/// be used again.
pub fn fingerprint<Message, R: Renderer, W: Widget<Message, R>>(widget: &W) -> (print: u64)
    ensures
        print == digest(widget.layout_feed()),
{
    let mut state = Hasher::new();
    widget.hash_layout(&mut state);
    assert(state@ =~= widget.layout_feed());
    state.finish()
}

/// Whether `item` keeps within its limits: whatever the window, as long as
/// its minimum is at most its maximum, the node that the item computes in
/// it lies within it.
///
/// Every node that [`Widget::layout`] returns does; this says the same of
/// the nodes that it would return.
pub open spec fn keeps_within<Message, R: Renderer, W: Widget<Message, R>>(
    item: W,
    renderer: &R,
) -> bool {
    forall|limits: LimitsView|
        limits.wf() ==> limits.contains(#[trigger] item.spec_layout(renderer, limits).size())
}

} // verus!
