//! Position and size widgets.
pub mod flex;
pub mod limits;
pub mod node;
pub mod shares;

pub use limits::Limits;
pub use node::Node;

use crate::point::Point;
use crate::rectangle::Rectangle;
use crate::vector::Vector;
use node::NodeView;
use vstd::prelude::*;

verus! {

/// What a [`Layout`] holds: a node and where it lies on the screen.
pub ghost struct LayoutView {
    /// The absolute position of the node.
    pub position: Point,
    /// The node.
    pub node: NodeView,
}

impl LayoutView {
    /// The node where it lies by its own bounds.
    pub open spec fn root(node: NodeView) -> LayoutView {
        LayoutView { position: node.bounds.spec_position(), node }
    }

    /// The node moved by `offset` from where it lies by its own bounds.
    pub open spec fn with_offset(offset: Vector, node: NodeView) -> LayoutView {
        LayoutView { position: node.bounds.spec_position().spec_offset(offset), node }
    }

    /// The absolute bounds of the node.
    pub open spec fn bounds(self) -> Rectangle {
        Rectangle::spec_new(self.position, self.node.size())
    }

    /// The layout of the child at `index`, positioned relative to this one.
    pub open spec fn child(self, index: int) -> LayoutView {
        LayoutView::with_offset(
            Vector { x: self.position.x, y: self.position.y },
            self.node.children[index],
        )
    }

    /// The layouts of the children, in order.
    pub open spec fn children(self) -> Seq<LayoutView> {
        Seq::new(self.node.children.len(), |i: int| self.child(i))
    }
}

/// The bounds of a [`Node`] and its children, using absolute coordinates.
#[derive(Debug, Clone, Copy)]
pub struct Layout<'a> {
    position: Point,
    node: &'a Node,
}

impl<'a> View for Layout<'a> {
    type V = LayoutView;

    closed spec fn view(&self) -> LayoutView {
        LayoutView { position: self.position, node: self.node@ }
    }
}

/// What each of the given layouts holds.
pub open spec fn views(layouts: Seq<Layout<'_>>) -> Seq<LayoutView> {
    Seq::new(layouts.len(), |i: int| layouts[i]@)
}

impl<'a> Layout<'a> {
    /// Creates a new [`Layout`] for the given [`Node`] at the position its
    /// bounds give.
    pub fn new(node: &'a Node) -> (layout: Layout<'a>)
        ensures
            layout@ == LayoutView::root(node@),
    {
        Layout { position: node.bounds().position(), node }
    }

    /// Creates a new [`Layout`] for the given [`Node`], moved by `offset`.
    pub fn with_offset(offset: Vector, node: &'a Node) -> (layout: Layout<'a>)
        ensures
            layout@ == LayoutView::with_offset(offset, node@),
    {
        Layout { position: node.bounds().position().offset(offset), node }
    }

    /// Returns the position of the [`Layout`].
    pub fn position(&self) -> (position: Point)
        ensures
            position == self@.position,
    {
        self.position
    }

    /// Returns the bounds of the [`Layout`].
    ///
    /// The returned [`Rectangle`] describes the position and size of a
    /// [`Node`].
    pub fn bounds(&self) -> (bounds: Rectangle)
        ensures
            bounds == self@.bounds(),
    {
        Rectangle::new(self.position, self.node.size())
    }

    /// Returns the [`Layout`] of each child of a [`Node`], in order.
    pub fn children(&self) -> (children: Vec<Layout<'a>>)
        ensures
            views(children@) == self@.children(),
    {
        let nodes = self.node.children();
        let offset = Vector::new(self.position.x, self.position.y);
        let mut children: Vec<Layout<'a>> = Vec::new();
        let mut i: usize = 0;
        while i < nodes.len()
            invariant
                i <= nodes.len(),
                node::views(nodes@) == self@.node.children,
                offset == (Vector { x: self@.position.x, y: self@.position.y }),
                children@.len() == i,
                forall|k: int| 0 <= k < i ==> (#[trigger] children@[k])@ == self@.child(k),
            decreases nodes.len() - i,
        {
            assert(node::views(nodes@)[i as int] == nodes@[i as int]@);
            children.push(Layout::with_offset(offset, &nodes[i]));
            i += 1;
        }
        assert(views(children@) =~= self@.children());
        children
    }
}

} // verus!
