//! Distribute elements using a flex-based layout.
//!
//! Children that do not fill are laid out first, in order, each in what
//! the earlier ones left. What then remains is divided among the children
//! that fill, by weight. Every child is placed after the one before it,
//! `spacing` apart, and aligned across the axis.
use crate::alignment::Alignment;
use crate::layout::limits::LimitsView;
use crate::layout::node::{views, NodeView};
use crate::layout::shares::{
    lemma_share_bounds, lemma_share_is_proportional, lemma_shares_add_up, lemma_weight_sum_bounds,
    portion, share, share_sum, total_weight, weight_sum,
};
use crate::layout::{Limits, Node};
use crate::padding::Padding;
use crate::point::Point;
use crate::renderer::Renderer;
use crate::size::Size;
use crate::units::{clamp_coord, clamp_len, len, max, spec_max};
use crate::widget::{keeps_within, Widget};
use vstd::prelude::*;

verus! {

/// The main axis of a flex layout.
#[derive(Clone, Copy, Debug, PartialEq, Eq, Structural)]
pub enum Axis {
    /// The horizontal axis.
    Horizontal,
    /// The vertical axis.
    Vertical,
}

impl Axis {
    /// The length of `size` along the axis.
    pub open spec fn spec_main(self, size: Size) -> u32 {
        match self {
            Axis::Horizontal => size.width,
            Axis::Vertical => size.height,
        }
    }

    /// The length of `size` across the axis.
    pub open spec fn spec_cross(self, size: Size) -> u32 {
        match self {
            Axis::Horizontal => size.height,
            Axis::Vertical => size.width,
        }
    }

    /// The size that is `main` long along the axis and `cross` across it.
    pub open spec fn spec_pack(self, main: u32, cross: u32) -> Size {
        match self {
            Axis::Horizontal => Size { width: main, height: cross },
            Axis::Vertical => Size { width: cross, height: main },
        }
    }

    /// The point at `main` along the axis and at `cross` across it.
    pub open spec fn spec_point(self, main: i32, cross: i32) -> Point {
        match self {
            Axis::Horizontal => Point { x: main, y: cross },
            Axis::Vertical => Point { x: cross, y: main },
        }
    }

    /// The padding before the content, along the axis.
    pub open spec fn spec_pad_main(self, padding: Padding) -> u16 {
        match self {
            Axis::Horizontal => padding.left,
            Axis::Vertical => padding.top,
        }
    }

    /// The padding before the content, across the axis.
    pub open spec fn spec_pad_cross(self, padding: Padding) -> u16 {
        match self {
            Axis::Horizontal => padding.top,
            Axis::Vertical => padding.left,
        }
    }

    /// The padding on both sides, along the axis.
    pub open spec fn spec_pad_along(self, padding: Padding) -> int {
        match self {
            Axis::Horizontal => padding.spec_horizontal(),
            Axis::Vertical => padding.spec_vertical(),
        }
    }

    /// The length of `size` along the axis.
    pub fn main(&self, size: Size) -> (length: u32)
        ensures
            length == self.spec_main(size),
    {
        match self {
            Axis::Horizontal => size.width,
            Axis::Vertical => size.height,
        }
    }

    /// The length of `size` across the axis.
    pub fn cross(&self, size: Size) -> (length: u32)
        ensures
            length == self.spec_cross(size),
    {
        match self {
            Axis::Horizontal => size.height,
            Axis::Vertical => size.width,
        }
    }

    /// The size that is `main` long along the axis and `cross` across it.
    pub fn pack(&self, main: u32, cross: u32) -> (size: Size)
        ensures
            size == self.spec_pack(main, cross),
    {
        match self {
            Axis::Horizontal => Size { width: main, height: cross },
            Axis::Vertical => Size { width: cross, height: main },
        }
    }
}

/// The weight with which `item` claims leftover space along the axis.
pub open spec fn main_factor<Message, R: Renderer, W: Widget<Message, R>>(axis: Axis, item: W) -> u16 {
    match axis {
        Axis::Horizontal => item.spec_width().spec_fill_factor(),
        Axis::Vertical => item.spec_height().spec_fill_factor(),
    }
}

/// The weights of the items, in order.
pub open spec fn weights<Message, R: Renderer, W: Widget<Message, R>>(axis: Axis, items: Seq<W>) -> Seq<u16> {
    Seq::new(items.len(), |i: int| main_factor::<Message, R, W>(axis, items[i]))
}

/// The space between `count` children in all.
pub open spec fn total_spacing(spacing: u32, count: nat) -> int {
    if count == 0 {
        0
    } else {
        spacing * (count - 1)
    }
}

/// The length along the axis that is there for the children: what the
/// window allows, less the space between them.
pub open spec fn start_available(axis: Axis, inner: LimitsView, spacing: u32, count: nat) -> u32 {
    clamp_len(axis.spec_main(inner.max) - total_spacing(spacing, count))
}

/// The window for a child that does not fill: no minimum, and at most what
/// is still available.
pub open spec fn first_limits(axis: Axis, available: u32, max_cross: u32) -> LimitsView {
    LimitsView::new(Size::spec_zero(), axis.spec_pack(available, max_cross))
}

/// The window for a child that fills: exactly its share along the axis.
pub open spec fn fill_limits(axis: Axis, share: u32, min_cross: u32, max_cross: u32) -> LimitsView {
    LimitsView::new(axis.spec_pack(share, min_cross), axis.spec_pack(share, max_cross))
}

/// The length along the axis that the first `k` items leave of `start`.
pub open spec fn available_before<Message, R: Renderer, W: Widget<Message, R>>(
    axis: Axis,
    renderer: &R,
    start: u32,
    max_cross: u32,
    items: Seq<W>,
    k: int,
) -> u32
    decreases k,
{
    if k <= 0 {
        start
    } else {
        let before = available_before::<Message, R, W>(axis, renderer, start, max_cross, items, k - 1);
        if main_factor::<Message, R, W>(axis, items[k - 1]) == 0 {
            clamp_len(
                before - axis.spec_main(
                    items[k - 1].spec_layout(renderer, first_limits(axis, before, max_cross)).size(),
                ),
            )
        } else {
            before
        }
    }
}

/// The node of the item at `index`, before it is placed.
///
/// An item that does not fill is laid out in what the items before it
/// left; an item that fills, in its share of what all of those left.
pub open spec fn raw_node<Message, R: Renderer, W: Widget<Message, R>>(
    axis: Axis,
    renderer: &R,
    inner: LimitsView,
    spacing: u32,
    items: Seq<W>,
    index: int,
) -> NodeView {
    let start = start_available(axis, inner, spacing, items.len());
    let max_cross = axis.spec_cross(inner.max);
    if main_factor::<Message, R, W>(axis, items[index]) == 0 {
        items[index].spec_layout(
            renderer,
            first_limits(
                axis,
                available_before::<Message, R, W>(axis, renderer, start, max_cross, items, index),
                max_cross,
            ),
        )
    } else {
        let remaining = available_before::<Message, R, W>(
            axis,
            renderer,
            start,
            max_cross,
            items,
            items.len() as int,
        );
        items[index].spec_layout(
            renderer,
            fill_limits(
                axis,
                share(remaining as int, weights::<Message, R, W>(axis, items), index) as u32,
                axis.spec_cross(inner.min),
                max_cross,
            ),
        )
    }
}

/// The nodes of the items, in order, before they are placed.
pub open spec fn raw_nodes<Message, R: Renderer, W: Widget<Message, R>>(
    axis: Axis,
    renderer: &R,
    inner: LimitsView,
    spacing: u32,
    items: Seq<W>,
) -> Seq<NodeView> {
    Seq::new(
        items.len(),
        |i: int| raw_node::<Message, R, W>(axis, renderer, inner, spacing, items, i),
    )
}

/// The sum of the lengths along the axis of the first `k` nodes.
pub open spec fn main_sum(axis: Axis, nodes: Seq<NodeView>, k: int) -> int
    decreases k,
{
    if k <= 0 {
        0
    } else {
        main_sum(axis, nodes, k - 1) + axis.spec_main(nodes[k - 1].size())
    }
}

/// Lengths add up to no less than nothing.
pub proof fn lemma_main_sum_nonnegative(axis: Axis, nodes: Seq<NodeView>, k: int)
    ensures
        0 <= main_sum(axis, nodes, k),
    decreases k,
{
    if k > 0 {
        lemma_main_sum_nonnegative(axis, nodes, k - 1);
    }
}

/// The largest length across the axis among `floor` and the first `k`
/// nodes.
pub open spec fn cross_max(axis: Axis, nodes: Seq<NodeView>, floor: u32, k: int) -> u32
    decreases k,
{
    if k <= 0 {
        floor
    } else {
        spec_max(
            cross_max(axis, nodes, floor, k - 1) as int,
            axis.spec_cross(nodes[k - 1].size()) as int,
        ) as u32
    }
}

/// The length along the axis that the nodes take together with the space
/// between them.
pub open spec fn consumed(axis: Axis, spacing: u32, nodes: Seq<NodeView>) -> int {
    main_sum(axis, nodes, nodes.len() as int) + total_spacing(spacing, nodes.len())
}

/// Where the node at `index` starts along the axis: after the padding, the
/// nodes before it and the space between them.
pub open spec fn main_offset(
    axis: Axis,
    padding: Padding,
    spacing: u32,
    nodes: Seq<NodeView>,
    index: int,
) -> int {
    axis.spec_pad_main(padding) + main_sum(axis, nodes, index) + spacing * index
}

/// Where `node` starts along the axis.
pub open spec fn main_start(axis: Axis, node: NodeView) -> i32 {
    match axis {
        Axis::Horizontal => node.bounds.x,
        Axis::Vertical => node.bounds.y,
    }
}

/// The length across the axis that the children are aligned in.
pub open spec fn cross_length(axis: Axis, inner: LimitsView, nodes: Seq<NodeView>) -> u32 {
    cross_max(
        axis,
        nodes,
        spec_max(axis.spec_cross(inner.min) as int, axis.spec_cross(inner.fill) as int) as u32,
        nodes.len() as int,
    )
}

/// The node at `index` where it is placed: moved to its offset along the
/// axis and to the padding across it, then aligned across the axis.
pub open spec fn placed(
    axis: Axis,
    padding: Padding,
    spacing: u32,
    align_items: Alignment,
    cross: u32,
    nodes: Seq<NodeView>,
    index: int,
) -> NodeView {
    let moved = nodes[index].moved_to(
        axis.spec_point(
            clamp_coord(main_offset(axis, padding, spacing, nodes, index)),
            axis.spec_pad_cross(padding) as i32,
        ),
    );
    match axis {
        Axis::Horizontal => moved.aligned(
            Alignment::Start,
            align_items,
            Size { width: 0, height: cross },
        ),
        Axis::Vertical => moved.aligned(align_items, Alignment::Start, Size { width: cross, height: 0 }),
    }
}

/// The size of the container: what the children take, resolved in the
/// window inside the padding, with the padding added, and brought into the
/// window of the container.
pub open spec fn container_size(
    axis: Axis,
    limits: LimitsView,
    padding: Padding,
    spacing: u32,
    nodes: Seq<NodeView>,
) -> Size {
    let inner = limits.pad(padding);
    limits.clamp(
        inner.resolve(
            axis.spec_pack(
                clamp_len(consumed(axis, spacing, nodes)),
                cross_length(axis, inner, nodes),
            ),
        ).spec_pad(padding),
    )
}

/// The node of a container whose children computed `nodes`, in order.
pub open spec fn arrange(
    axis: Axis,
    limits: LimitsView,
    padding: Padding,
    spacing: u32,
    align_items: Alignment,
    nodes: Seq<NodeView>,
) -> NodeView {
    let cross = cross_length(axis, limits.pad(padding), nodes);
    NodeView::with_children(
        container_size(axis, limits, padding, spacing, nodes),
        Seq::new(
            nodes.len(),
            |i: int| placed(axis, padding, spacing, align_items, cross, nodes, i),
        ),
    )
}

/// The node that [`resolve`] computes.
pub open spec fn spec_resolve<Message, R: Renderer, W: Widget<Message, R>>(
    axis: Axis,
    renderer: &R,
    limits: LimitsView,
    padding: Padding,
    spacing: u32,
    align_items: Alignment,
    items: Seq<W>,
) -> NodeView {
    arrange(
        axis,
        limits,
        padding,
        spacing,
        align_items,
        raw_nodes::<Message, R, W>(axis, renderer, limits.pad(padding), spacing, items),
    )
}

/// Whether two rows of items lay out alike one by one: as many items,
/// each with the weight of its counterpart and computing, in every window,
/// the node that its counterpart computes.
pub open spec fn alike<M, N, R: Renderer, V: Widget<M, R>, W: Widget<N, R>>(
    axis: Axis,
    renderer: &R,
    one: Seq<V>,
    other: Seq<W>,
) -> bool {
    &&& one.len() == other.len()
    &&& forall|i: int|
        0 <= i < one.len() ==> #[trigger] main_factor::<M, R, V>(axis, one[i]) == main_factor::<
            N,
            R,
            W,
        >(axis, other[i])
    &&& forall|i: int, limits: LimitsView|
        0 <= i < one.len() ==> #[trigger] one[i].spec_layout(renderer, limits)
            == other[i].spec_layout(renderer, limits)
}

/// Items that lay out alike leave the same behind them.
proof fn lemma_alike_leave_the_same<M, N, R: Renderer, V: Widget<M, R>, W: Widget<N, R>>(
    axis: Axis,
    renderer: &R,
    start: u32,
    max_cross: u32,
    one: Seq<V>,
    other: Seq<W>,
    k: int,
)
    requires
        alike::<M, N, R, V, W>(axis, renderer, one, other),
        0 <= k <= one.len(),
    ensures
        available_before::<M, R, V>(axis, renderer, start, max_cross, one, k)
            == available_before::<N, R, W>(axis, renderer, start, max_cross, other, k),
    decreases k,
{
    if k > 0 {
        lemma_alike_leave_the_same::<M, N, R, V, W>(
            axis,
            renderer,
            start,
            max_cross,
            one,
            other,
            k - 1,
        );
        let before = available_before::<M, R, V>(axis, renderer, start, max_cross, one, k - 1);
        assert(main_factor::<M, R, V>(axis, one[k - 1]) == main_factor::<N, R, W>(
            axis,
            other[k - 1],
        ));
        assert(one[k - 1].spec_layout(renderer, first_limits(axis, before, max_cross)) == other[k
            - 1].spec_layout(renderer, first_limits(axis, before, max_cross)));
    }
}

/// A layout depends on the items only through what they compute: items
/// that lay out alike one by one give the same node, whatever else they
/// hold.
pub proof fn lemma_alike_items_same_layout<M, N, R: Renderer, V: Widget<M, R>, W: Widget<N, R>>(
    axis: Axis,
    renderer: &R,
    limits: LimitsView,
    padding: Padding,
    spacing: u32,
    align_items: Alignment,
    one: Seq<V>,
    other: Seq<W>,
)
    requires
        alike::<M, N, R, V, W>(axis, renderer, one, other),
    ensures
        spec_resolve::<M, R, V>(axis, renderer, limits, padding, spacing, align_items, one)
            == spec_resolve::<N, R, W>(
            axis,
            renderer,
            limits,
            padding,
            spacing,
            align_items,
            other,
        ),
{
    let inner = limits.pad(padding);
    let start = start_available(axis, inner, spacing, one.len());
    let max_cross = axis.spec_cross(inner.max);
    let first = raw_nodes::<M, R, V>(axis, renderer, inner, spacing, one);
    let second = raw_nodes::<N, R, W>(axis, renderer, inner, spacing, other);
    assert(weights::<M, R, V>(axis, one) =~= weights::<N, R, W>(axis, other)) by {
        assert forall|i: int| 0 <= i < one.len() implies weights::<M, R, V>(axis, one)[i]
            == weights::<N, R, W>(axis, other)[i] by {
            assert(main_factor::<M, R, V>(axis, one[i]) == main_factor::<N, R, W>(
                axis,
                other[i],
            ));
        }
    }
    lemma_alike_leave_the_same::<M, N, R, V, W>(
        axis,
        renderer,
        start,
        max_cross,
        one,
        other,
        one.len() as int,
    );
    assert forall|i: int| 0 <= i < one.len() implies first[i] == second[i] by {
        lemma_alike_leave_the_same::<M, N, R, V, W>(
            axis,
            renderer,
            start,
            max_cross,
            one,
            other,
            i,
        );
        assert(main_factor::<M, R, V>(axis, one[i]) == main_factor::<N, R, W>(axis, other[i]));
        let left = available_before::<M, R, V>(axis, renderer, start, max_cross, one, i);
        assert(one[i].spec_layout(renderer, first_limits(axis, left, max_cross))
            == other[i].spec_layout(renderer, first_limits(axis, left, max_cross)));
        let rest = available_before::<M, R, V>(
            axis,
            renderer,
            start,
            max_cross,
            one,
            one.len() as int,
        );
        let window = fill_limits(
            axis,
            share(rest as int, weights::<M, R, V>(axis, one), i) as u32,
            axis.spec_cross(inner.min),
            max_cross,
        );
        assert(one[i].spec_layout(renderer, window) == other[i].spec_layout(renderer, window));
    }
    assert(first =~= second);
}

/// Whether every item keeps within its limits.
pub open spec fn all_keep_within<Message, R: Renderer, W: Widget<Message, R>>(
    items: Seq<W>,
    renderer: &R,
) -> bool {
    forall|i: int| 0 <= i < items.len() ==> keeps_within::<Message, R, W>(#[trigger] items[i], renderer)
}

/// What is left after all items that do not fill: what the items that fill
/// divide among them.
pub open spec fn remaining<Message, R: Renderer, W: Widget<Message, R>>(
    axis: Axis,
    renderer: &R,
    inner: LimitsView,
    spacing: u32,
    items: Seq<W>,
) -> u32 {
    available_before::<Message, R, W>(
        axis,
        renderer,
        start_available(axis, inner, spacing, items.len()),
        axis.spec_cross(inner.max),
        items,
        items.len() as int,
    )
}

/// Fill weights are honoured: an item that fills and keeps within its
/// limits is exactly as long as its share of what the others left.
pub proof fn lemma_fill_item_gets_its_share<Message, R: Renderer, W: Widget<Message, R>>(
    axis: Axis,
    renderer: &R,
    inner: LimitsView,
    spacing: u32,
    items: Seq<W>,
    index: int,
)
    requires
        0 <= index < items.len(),
        main_factor::<Message, R, W>(axis, items[index]) != 0,
        keeps_within::<Message, R, W>(items[index], renderer),
    ensures
        axis.spec_main(
            raw_node::<Message, R, W>(axis, renderer, inner, spacing, items, index).size(),
        ) == share(
            remaining::<Message, R, W>(axis, renderer, inner, spacing, items) as int,
            weights::<Message, R, W>(axis, items),
            index,
        ),
{
    let left = remaining::<Message, R, W>(axis, renderer, inner, spacing, items);
    let factors = weights::<Message, R, W>(axis, items);
    lemma_share_bounds(left as int, factors, index);
    let part = share(left as int, factors, index) as u32;
    let window = fill_limits(axis, part, axis.spec_cross(inner.min), axis.spec_cross(inner.max));
    assert(window.wf());
    assert(window.contains(items[index].spec_layout(renderer, window).size()));
}

/// An item that does not fill and keeps within its limits takes no more
/// than what the items before it left.
pub proof fn lemma_item_fits_in_what_is_left<Message, R: Renderer, W: Widget<Message, R>>(
    axis: Axis,
    renderer: &R,
    inner: LimitsView,
    spacing: u32,
    items: Seq<W>,
    index: int,
)
    requires
        0 <= index < items.len(),
        main_factor::<Message, R, W>(axis, items[index]) == 0,
        keeps_within::<Message, R, W>(items[index], renderer),
    ensures
        axis.spec_main(
            raw_node::<Message, R, W>(axis, renderer, inner, spacing, items, index).size(),
        ) <= available_before::<Message, R, W>(
            axis,
            renderer,
            start_available(axis, inner, spacing, items.len()),
            axis.spec_cross(inner.max),
            items,
            index,
        ),
{
    let before = available_before::<Message, R, W>(
        axis,
        renderer,
        start_available(axis, inner, spacing, items.len()),
        axis.spec_cross(inner.max),
        items,
        index,
    );
    let window = first_limits(axis, before, axis.spec_cross(inner.max));
    assert(window.wf());
    assert(window.contains(items[index].spec_layout(renderer, window).size()));
}

/// The first `k` items are as long together as what they took of the
/// length that was there, and the shares of those of them that fill.
proof fn lemma_lengths_so_far<Message, R: Renderer, W: Widget<Message, R>>(
    axis: Axis,
    renderer: &R,
    inner: LimitsView,
    spacing: u32,
    items: Seq<W>,
    k: int,
)
    requires
        0 <= k <= items.len(),
        all_keep_within::<Message, R, W>(items, renderer),
        total_weight(weights::<Message, R, W>(axis, items)) > 0,
    ensures
        main_sum(
            axis,
            raw_nodes::<Message, R, W>(axis, renderer, inner, spacing, items),
            k,
        ) == start_available(axis, inner, spacing, items.len()) - available_before::<
            Message,
            R,
            W,
        >(
            axis,
            renderer,
            start_available(axis, inner, spacing, items.len()),
            axis.spec_cross(inner.max),
            items,
            k,
        ) + share_sum(
            remaining::<Message, R, W>(axis, renderer, inner, spacing, items) as int,
            weights::<Message, R, W>(axis, items),
            k,
        ),
    decreases k,
{
    if k > 0 {
        let factors = weights::<Message, R, W>(axis, items);
        let left = remaining::<Message, R, W>(axis, renderer, inner, spacing, items);
        lemma_lengths_so_far::<Message, R, W>(axis, renderer, inner, spacing, items, k - 1);
        lemma_share_is_proportional(left as int, factors, k - 1);
        if main_factor::<Message, R, W>(axis, items[k - 1]) == 0 {
            lemma_item_fits_in_what_is_left::<Message, R, W>(
                axis,
                renderer,
                inner,
                spacing,
                items,
                k - 1,
            );
        } else {
            lemma_fill_item_gets_its_share::<Message, R, W>(
                axis,
                renderer,
                inner,
                spacing,
                items,
                k - 1,
            );
        }
    }
}

/// Where an item fills, nothing is left over: the items are as long
/// together as the window allows once the spacing is taken off.
pub proof fn lemma_fill_leaves_nothing<Message, R: Renderer, W: Widget<Message, R>>(
    axis: Axis,
    renderer: &R,
    inner: LimitsView,
    spacing: u32,
    items: Seq<W>,
)
    requires
        all_keep_within::<Message, R, W>(items, renderer),
        total_weight(weights::<Message, R, W>(axis, items)) > 0,
    ensures
        main_sum(
            axis,
            raw_nodes::<Message, R, W>(axis, renderer, inner, spacing, items),
            items.len() as int,
        ) == start_available(axis, inner, spacing, items.len()),
{
    lemma_lengths_so_far::<Message, R, W>(
        axis,
        renderer,
        inner,
        spacing,
        items,
        items.len() as int,
    );
    lemma_shares_add_up(
        remaining::<Message, R, W>(axis, renderer, inner, spacing, items) as int,
        weights::<Message, R, W>(axis, items),
    );
}

/// What the children take along the axis is the sum of their lengths and
/// of the space between them, one space fewer than there are children;
/// each child starts where the one before it ends, one space further.
pub proof fn lemma_consumed_is_lengths_and_spacing(
    axis: Axis,
    padding: Padding,
    spacing: u32,
    nodes: Seq<NodeView>,
    index: int,
)
    requires
        0 <= index < nodes.len(),
    ensures
        consumed(axis, spacing, nodes) == main_sum(axis, nodes, nodes.len() as int) + spacing * (
        nodes.len() - 1),
        main_offset(axis, padding, spacing, nodes, 0) == axis.spec_pad_main(padding),
        main_offset(axis, padding, spacing, nodes, index + 1) == main_offset(
            axis,
            padding,
            spacing,
            nodes,
            index,
        ) + axis.spec_main(nodes[index].size()) + spacing,
{
    assert(spacing * (index + 1) == spacing * index + spacing) by (nonlinear_arith);
    assert(spacing * 0 == 0) by (nonlinear_arith);
}

/// A container hugs its children: where the window inside the padding
/// neither cuts them down nor stretches them, the container is as long as
/// what the children take, and the padding on both sides.
pub proof fn lemma_container_hugs_children(
    axis: Axis,
    limits: LimitsView,
    padding: Padding,
    spacing: u32,
    nodes: Seq<NodeView>,
)
    requires
        limits.wf(),
        axis.spec_pad_along(padding) <= axis.spec_main(limits.max),
        axis.spec_main(limits.pad(padding).fill) <= consumed(axis, spacing, nodes)
            <= axis.spec_main(limits.pad(padding).max),
    ensures
        axis.spec_main(container_size(axis, limits, padding, spacing, nodes)) == consumed(
            axis,
            spacing,
            nodes,
        ) + axis.spec_pad_along(padding),
{
}

/// The alignment across the axis changes nothing along it: whatever the
/// alignment, the container has the same size, and each child the same
/// place and the same length along the axis.
pub proof fn lemma_alignment_leaves_main_axis(
    axis: Axis,
    limits: LimitsView,
    padding: Padding,
    spacing: u32,
    one: Alignment,
    other: Alignment,
    nodes: Seq<NodeView>,
    index: int,
)
    requires
        0 <= index < nodes.len(),
    ensures
        arrange(axis, limits, padding, spacing, one, nodes).size() == arrange(
            axis,
            limits,
            padding,
            spacing,
            other,
            nodes,
        ).size(),
        axis.spec_main(arrange(axis, limits, padding, spacing, one, nodes).children[index].size())
            == axis.spec_main(nodes[index].size()),
        axis.spec_main(arrange(axis, limits, padding, spacing, one, nodes).children[index].size())
            == axis.spec_main(
            arrange(axis, limits, padding, spacing, other, nodes).children[index].size(),
        ),
        main_start(axis, arrange(axis, limits, padding, spacing, one, nodes).children[index])
            == main_start(
            axis,
            arrange(axis, limits, padding, spacing, other, nodes).children[index],
        ),
        main_start(axis, arrange(axis, limits, padding, spacing, one, nodes).children[index])
            == clamp_coord(main_offset(axis, padding, spacing, nodes, index)),
{
}

/// Without children the container is as large as nothing would be inside
/// the padding: the smallest size that the window inside the padding
/// resolves to, with the padding added.
pub proof fn lemma_no_children(
    axis: Axis,
    limits: LimitsView,
    padding: Padding,
    spacing: u32,
    align_items: Alignment,
)
    ensures
        arrange(axis, limits, padding, spacing, align_items, Seq::empty()).children.len() == 0,
        arrange(axis, limits, padding, spacing, align_items, Seq::empty()).size() == limits.clamp(
            limits.pad(padding).resolve(
                axis.spec_pack(
                    0,
                    spec_max(
                        axis.spec_cross(limits.pad(padding).min) as int,
                        axis.spec_cross(limits.pad(padding).fill) as int,
                    ) as u32,
                ),
            ).spec_pad(padding),
        ),
{
}

/// Without children and without padding the container is as large as
/// nothing is in its window.
pub proof fn lemma_no_children_no_padding(
    axis: Axis,
    limits: LimitsView,
    spacing: u32,
    align_items: Alignment,
)
    requires
        limits.wf(),
    ensures
        arrange(
            axis,
            limits,
            Padding::spec_zero(),
            spacing,
            align_items,
            Seq::empty(),
        ).size() == limits.resolve(Size::spec_zero()),
{
}

/// The weight with which `item` claims leftover space along the axis.
fn fill_factor<Message, R: Renderer, W: Widget<Message, R>>(axis: Axis, item: &W) -> (factor: u16)
    ensures
        factor == main_factor::<Message, R, W>(axis, *item),
{
    match axis {
        Axis::Horizontal => item.width().fill_factor(),
        Axis::Vertical => item.height().fill_factor(),
    }
}

/// Computes the flex layout with the given axis and limits, applying
/// spacing, padding and alignment to the items as needed.
///
/// It returns a new layout [`Node`]: its children are the nodes of the
/// items, in order and of their shape, and its size lies within `limits`.
pub fn resolve<Message, R: Renderer, W: Widget<Message, R>>(
    axis: Axis,
    renderer: &R,
    limits: &Limits,
    padding: Padding,
    spacing: u32,
    align_items: Alignment,
    items: &[W],
) -> (node: Node)
    ensures
        node@ == spec_resolve::<Message, R, W>(
            axis,
            renderer,
            limits@,
            padding,
            spacing,
            align_items,
            items@,
        ),
        limits@.contains(node@.size()),
        node@.children.len() == items@.len(),
        forall|i: int|
            0 <= i < items@.len() ==> (#[trigger] items@[i]).accepts(node@.children[i].children),
{
    let inner = limits.pad(padding);
    let n = items.len();
    let max_cross = axis.cross(inner.max());
    let min_cross = axis.cross(inner.min());
    let max_main = axis.main(inner.max());
    let between: u128 = if n == 0 {
        0
    } else {
        assert(spacing * (n - 1) <= 0xffff_ffff * 0xffff_ffff_ffff_ffff) by (nonlinear_arith)
            requires
                spacing <= 0xffff_ffff,
                0 <= n - 1 <= 0xffff_ffff_ffff_ffff,
        ;
        spacing as u128 * (n - 1) as u128
    };
    let start: u32 = if between >= max_main as u128 {
        0
    } else {
        (max_main as u128 - between) as u32
    };
    let ghost factors = weights::<Message, R, W>(axis, items@);
    let ghost raw = raw_nodes::<Message, R, W>(axis, renderer, inner@, spacing, items@);

    // The items that do not fill, each in what those before it left. An item
    // that fills gets a placeholder for now.
    let mut nodes: Vec<Node> = Vec::new();
    let mut available: u32 = start;
    let mut fill_sum: u128 = 0;
    let mut i: usize = 0;
    while i < n
        invariant
            n == items@.len(),
            i <= n,
            nodes@.len() == i,
            start == start_available(axis, inner@, spacing, n as nat),
            max_cross == axis.spec_cross(inner@.max),
            factors == weights::<Message, R, W>(axis, items@),
            available == available_before::<Message, R, W>(
                axis,
                renderer,
                start,
                max_cross,
                items@,
                i as int,
            ),
            fill_sum == weight_sum(factors, i as int),
            forall|j: int|
                0 <= j < i && main_factor::<Message, R, W>(axis, items@[j]) == 0 ==> {
                    &&& (#[trigger] nodes@[j])@ == raw_node::<Message, R, W>(
                        axis,
                        renderer,
                        inner@,
                        spacing,
                        items@,
                        j,
                    )
                    &&& items@[j].accepts(nodes@[j]@.children)
                },
        decreases n - i,
    {
        let factor = fill_factor::<Message, R, W>(axis, &items[i]);
        proof {
            lemma_weight_sum_bounds(factors, i as int, i + 1);
        }
        if factor == 0 {
            let child_limits = Limits::new(Size::zero(), axis.pack(available, max_cross));
            let layout = items[i].layout(renderer, &child_limits);
            let size = layout.size();
            available = available.saturating_sub(axis.main(size));
            nodes.push(layout);
        } else {
            nodes.push(Node::new(Size::zero()));
        }
        fill_sum = fill_sum + factor as u128;
        i += 1;
    }

    // The items that fill, each in its share of what is left.
    let remaining = available;
    let mut before: u128 = 0;
    let mut i: usize = 0;
    while i < n
        invariant
            n == items@.len(),
            i <= n,
            nodes@.len() == n,
            start == start_available(axis, inner@, spacing, n as nat),
            max_cross == axis.spec_cross(inner@.max),
            min_cross == axis.spec_cross(inner@.min),
            factors == weights::<Message, R, W>(axis, items@),
            remaining == available_before::<Message, R, W>(
                axis,
                renderer,
                start,
                max_cross,
                items@,
                n as int,
            ),
            fill_sum == total_weight(factors),
            before == weight_sum(factors, i as int),
            forall|j: int|
                0 <= j < n && (j < i || main_factor::<Message, R, W>(axis, items@[j]) == 0) ==> {
                    &&& (#[trigger] nodes@[j])@ == raw_node::<Message, R, W>(
                        axis,
                        renderer,
                        inner@,
                        spacing,
                        items@,
                        j,
                    )
                    &&& items@[j].accepts(nodes@[j]@.children)
                },
        decreases n - i,
    {
        let factor = fill_factor::<Message, R, W>(axis, &items[i]);
        proof {
            lemma_weight_sum_bounds(factors, i as int, i + 1);
            lemma_weight_sum_bounds(factors, i + 1, n as int);
        }
        if factor != 0 {
            proof {
                lemma_share_bounds(remaining as int, factors, i as int);
            }
            let part = portion(remaining, before, factor, fill_sum);
            let child_limits = Limits::new(axis.pack(part, min_cross), axis.pack(part, max_cross));
            let layout = items[i].layout(renderer, &child_limits);
            nodes.set(i, layout);
        }
        before = before + factor as u128;
        i += 1;
    }
    assert(views(nodes@) =~= raw) by {
        assert(raw.len() == n);
        assert forall|j: int| 0 <= j < n implies views(nodes@)[j] == raw[j] by {
            assert(nodes@[j]@ == raw_node::<Message, R, W>(
                axis,
                renderer,
                inner@,
                spacing,
                items@,
                j,
            ));
        }
    }

    // The length across the axis: that of the largest item, or what the
    // window asks for.
    let mut cross = max(min_cross, axis.cross(inner.fill()));
    let ghost floor = cross;
    let mut i: usize = 0;
    while i < n
        invariant
            i <= n,
            nodes@.len() == n,
            views(nodes@) == raw,
            cross == cross_max(axis, raw, floor, i as int),
        decreases n - i,
    {
        assert(views(nodes@)[i as int] == nodes@[i as int]@);
        cross = max(cross, axis.cross(nodes[i].size()));
        i += 1;
    }

    // Each item after the one before it, aligned across the axis.
    let pad_main: u16 = match axis {
        Axis::Horizontal => padding.left,
        Axis::Vertical => padding.top,
    };
    let pad_cross: u16 = match axis {
        Axis::Horizontal => padding.top,
        Axis::Vertical => padding.left,
    };
    let mut main: u128 = pad_main as u128;
    let mut i: usize = 0;
    assert(spacing * 0 == 0) by (nonlinear_arith);
    while i < n
        invariant
            i <= n,
            n == raw.len(),
            nodes@.len() == n,
            pad_main == axis.spec_pad_main(padding),
            pad_cross == axis.spec_pad_cross(padding),
            main == main_offset(axis, padding, spacing, raw, i as int),
            main <= 65535 + i * 0x2_0000_0000,
            forall|j: int|
                0 <= j < i ==> (#[trigger] nodes@[j])@ == placed(
                    axis,
                    padding,
                    spacing,
                    align_items,
                    cross,
                    raw,
                    j,
                ),
            forall|j: int| i <= j < n ==> (#[trigger] nodes@[j])@ == raw[j],
        decreases n - i,
    {
        let at: i32 = if main > i32::MAX as u128 {
            i32::MAX
        } else {
            main as i32
        };
        let position = match axis {
            Axis::Horizontal => Point { x: at, y: pad_cross as i32 },
            Axis::Vertical => Point { x: pad_cross as i32, y: at },
        };
        let node = &mut nodes[i];
        node.move_to(position);
        match axis {
            Axis::Horizontal => {
                node.align(Alignment::Start, align_items, Size { width: 0, height: cross });
            },
            Axis::Vertical => {
                node.align(align_items, Alignment::Start, Size { width: cross, height: 0 });
            },
        }
        let size = nodes[i].size();
        assert(spacing * (i + 1) == spacing * i + spacing) by (nonlinear_arith);
        main = main + axis.main(size) as u128 + spacing as u128;
        i += 1;
    }

    let taken: u128 = if n == 0 {
        0
    } else {
        assert(spacing * n == spacing * (n - 1) + spacing) by (nonlinear_arith);
        assert(0 <= spacing * (n - 1)) by (nonlinear_arith)
            requires
                n >= 1,
        ;
        proof {
            lemma_main_sum_nonnegative(axis, raw, n as int);
        }
        main - pad_main as u128 - spacing as u128
    };
    let intrinsic = axis.pack(len(taken), cross);
    let size = limits.clamp(inner.resolve(intrinsic).pad(padding));
    proof {
        assert(taken == consumed(axis, spacing, raw));
        assert(cross == cross_length(axis, inner@, raw));
        assert(size == container_size(axis, limits@, padding, spacing, raw));

        assert(views(nodes@) =~= Seq::new(
            raw.len(),
            |i: int| placed(axis, padding, spacing, align_items, cross, raw, i),
        ));
        assert forall|i: int| 0 <= i < items@.len() implies (#[trigger] items@[i]).accepts(
            views(nodes@)[i].children,
        ) by {
            assert(nodes@[i]@.children == raw[i].children);
        }
    }
    Node::with_children(size, nodes)
}

} // verus!
