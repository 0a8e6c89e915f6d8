//! The result of a layout pass.
use crate::alignment::Alignment;
use crate::point::Point;
use crate::rectangle::Rectangle;
use crate::size::Size;
use crate::units::{clamp_coord, coord, max, spec_max};
use vstd::prelude::*;

verus! {

/// What a [`Node`] holds: its bounds, relative to its parent, and its
/// children in order.
pub ghost struct NodeView {
    /// The position, relative to the parent, and the size.
    pub bounds: Rectangle,
    /// The children, in the order of the widgets they were computed for.
    pub children: Seq<NodeView>,
}

/// Half of a difference of lengths, rounded towards zero.
pub open spec fn half(difference: int) -> int {
    if difference >= 0 {
        difference / 2
    } else {
        -((-difference) / 2)
    }
}

/// How far content of the given length moves to be aligned in `space`.
pub open spec fn align_shift(alignment: Alignment, space: u32, length: u32) -> int {
    match alignment {
        Alignment::Start => 0,
        Alignment::Center => half(space - length),
        Alignment::End => space - length,
        Alignment::Fill => 0,
    }
}

/// The length of content once it is aligned in `space`: stretched to the
/// space if it is to fill it, unchanged otherwise.
pub open spec fn align_length(alignment: Alignment, space: u32, length: u32) -> u32 {
    match alignment {
        Alignment::Fill => spec_max(length as int, space as int) as u32,
        _ => length,
    }
}

impl NodeView {
    /// A node of the given size at the origin, without children.
    pub open spec fn leaf(size: Size) -> NodeView {
        NodeView { bounds: Rectangle::spec_new(Point::spec_origin(), size), children: Seq::empty() }
    }

    /// A node of the given size at the origin, with the given children.
    pub open spec fn with_children(size: Size, children: Seq<NodeView>) -> NodeView {
        NodeView { bounds: Rectangle::spec_new(Point::spec_origin(), size), children }
    }

    /// The size of the node.
    pub open spec fn size(self) -> Size {
        self.bounds.spec_size()
    }

    /// The node at another position.
    pub open spec fn moved_to(self, position: Point) -> NodeView {
        NodeView { bounds: Rectangle { x: position.x, y: position.y, ..self.bounds }, ..self }
    }

    /// The node aligned in the given space.
    pub open spec fn aligned(self, horizontal: Alignment, vertical: Alignment, space: Size) -> NodeView {
        NodeView {
            bounds: Rectangle {
                x: clamp_coord(self.bounds.x + align_shift(horizontal, space.width, self.bounds.width)),
                y: clamp_coord(self.bounds.y + align_shift(vertical, space.height, self.bounds.height)),
                width: align_length(horizontal, space.width, self.bounds.width),
                height: align_length(vertical, space.height, self.bounds.height),
            },
            ..self
        }
    }
}

/// The bounds of an element and its children.
#[derive(Debug)]
pub struct Node {
    bounds: Rectangle,
    children: Vec<Node>,
}

/// What each of the given nodes holds.
pub open spec fn views(nodes: Seq<Node>) -> Seq<NodeView> {
    Seq::new(nodes.len(), |i: int| nodes[i]@)
}

impl View for Node {
    type V = NodeView;

    closed spec fn view(&self) -> NodeView {
        self.model()
    }
}

/// Moves content of the given length, placed at `at`, to where it is
/// aligned in `space`.
fn shifted(at: i32, alignment: Alignment, space: u32, length: u32) -> (moved: i32)
    ensures
        moved == clamp_coord(at + align_shift(alignment, space, length)),
{
    let difference: i64 = space as i64 - length as i64;
    match alignment {
        Alignment::Start => at,
        Alignment::Center => {
            let shift: i64 = if space >= length {
                ((space - length) / 2) as i64
            } else {
                -(((length - space) / 2) as i64)
            };
            coord(at as i64 + shift)
        },
        Alignment::End => coord(at as i64 + difference),
        Alignment::Fill => at,
    }
}

/// The length of content once it is aligned in `space`.
fn stretched(alignment: Alignment, space: u32, length: u32) -> (l: u32)
    ensures
        l == align_length(alignment, space, length),
{
    match alignment {
        Alignment::Fill => max(length, space),
        _ => length,
    }
}

impl Node {
    spec fn model(self) -> NodeView
        decreases self,
    {
        NodeView {
            bounds: self.bounds,
            children: Seq::new(
                self.children@.len(),
                |i: int|
                    if 0 <= i < self.children@.len() {
                        self.children@[i].model()
                    } else {
                        arbitrary()
                    },
            ),
        }
    }

    proof fn lemma_model(self)
        ensures
            self@.bounds == self.bounds,
            self@.children == views(self.children@),
    {
        assert(self@.children =~= views(self.children@));
    }

    /// Creates a new [`Node`] with the given [`Size`].
    pub fn new(size: Size) -> (node: Node)
        ensures
            node@ == NodeView::leaf(size),
    {
        let node = Node { bounds: Rectangle::with_size(size), children: Vec::new() };
        proof {
            node.lemma_model();
            assert(node@.children =~= Seq::empty());
        }
        node
    }

    /// Creates a new [`Node`] with the given [`Size`] and children.
    pub fn with_children(size: Size, children: Vec<Node>) -> (node: Node)
        ensures
            node@ == NodeView::with_children(size, views(children@)),
    {
        let node = Node { bounds: Rectangle::with_size(size), children };
        proof {
            node.lemma_model();
        }
        node
    }

    /// Returns the [`Size`] of the [`Node`].
    pub fn size(&self) -> (size: Size)
        ensures
            size == self@.size(),
    {
        proof {
            self.lemma_model();
        }
        Size { width: self.bounds.width, height: self.bounds.height }
    }

    /// Returns the bounds of the [`Node`].
    pub fn bounds(&self) -> (bounds: Rectangle)
        ensures
            bounds == self@.bounds,
    {
        proof {
            self.lemma_model();
        }
        self.bounds
    }

    /// Returns the children of the [`Node`].
    pub fn children(&self) -> (children: &Vec<Node>)
        ensures
            views(children@) == self@.children,
    {
        proof {
            self.lemma_model();
        }
        &self.children
    }

    /// Moves the [`Node`] to the given position.
    pub fn move_to(&mut self, position: Point)
        ensures
            final(self)@ == old(self)@.moved_to(position),
    {
        proof {
            self.lemma_model();
        }
        self.bounds.x = position.x;
        self.bounds.y = position.y;
        proof {
            self.lemma_model();
        }
    }

    /// Aligns the [`Node`] in the given space.
    pub fn align(&mut self, horizontal_alignment: Alignment, vertical_alignment: Alignment, space: Size)
        ensures
            final(self)@ == old(self)@.aligned(horizontal_alignment, vertical_alignment, space),
    {
        proof {
            self.lemma_model();
        }
        self.bounds.x = shifted(self.bounds.x, horizontal_alignment, space.width, self.bounds.width);
        self.bounds.y = shifted(self.bounds.y, vertical_alignment, space.height, self.bounds.height);
        self.bounds.width = stretched(horizontal_alignment, space.width, self.bounds.width);
        self.bounds.height = stretched(vertical_alignment, space.height, self.bounds.height);
        proof {
            self.lemma_model();
        }
    }
}

} // verus!
