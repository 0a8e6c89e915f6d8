//! What a container does, in terms of what its children do.
use crate::event::{lemma_merge_all_captured, merge_all, Event, Status};
use crate::layout::node::NodeView;
use crate::layout::LayoutView;
use crate::overlay::Shown;
use crate::point::Point;
use crate::rectangle::Rectangle;
use crate::renderer::{Defaults, PrimitiveView, Renderer};
use crate::widget::Widget;
use vstd::prelude::*;

verus! {

/// Whether `nodes` has the shape of `items`: one node for each item, of
/// the shape of that item, in the same order.
pub open spec fn accept<Message, R: Renderer, W: Widget<Message, R>>(
    items: Seq<W>,
    nodes: Seq<NodeView>,
) -> bool {
    &&& nodes.len() == items.len()
    &&& forall|i: int| 0 <= i < items.len() ==> (#[trigger] items[i]).accepts(nodes[i].children)
}

/// Whether the items, each offered `event` in order, can emit `emitted`
/// between them and give `status`, where item `i` emits the messages from
/// `cuts[i]` up to `cuts[i + 1]` and answers `statuses[i]`.
pub open spec fn react_by<Message, R: Renderer, W: Widget<Message, R>>(
    items: Seq<W>,
    layouts: Seq<LayoutView>,
    event: Event,
    cursor_position: Point,
    emitted: Seq<Message>,
    status: Status,
    cuts: Seq<int>,
    statuses: Seq<Status>,
) -> bool {
    &&& cuts.len() == items.len() + 1
    &&& statuses.len() == items.len()
    &&& cuts[0] == 0
    &&& cuts[items.len() as int] == emitted.len()
    &&& forall|i: int| 0 <= i < items.len() ==> cuts[i] <= #[trigger] cuts[i + 1]
    &&& forall|i: int|
        0 <= i < items.len() ==> (#[trigger] items[i]).reacts(
            event,
            layouts[i],
            cursor_position,
            emitted.subrange(cuts[i], cuts[i + 1]),
            statuses[i],
        )
    &&& status == merge_all(statuses)
}

/// Whether the items, each offered `event` in order, can emit `emitted`
/// between them and give `status`.
///
/// Every item is offered the event, whatever the items before it answered.
/// The messages of an item come after those of the items before it, and
/// the status is the merge of the statuses of all.
pub open spec fn react<Message, R: Renderer, W: Widget<Message, R>>(
    items: Seq<W>,
    layouts: Seq<LayoutView>,
    event: Event,
    cursor_position: Point,
    emitted: Seq<Message>,
    status: Status,
) -> bool {
    exists|cuts: Seq<int>, statuses: Seq<Status>| #[trigger]
        react_by::<Message, R, W>(
            items,
            layouts,
            event,
            cursor_position,
            emitted,
            status,
            cuts,
            statuses,
        )
}

/// An event offered to several items is captured exactly if one of them
/// captured it, wherever that item stands; and every message that was
/// emitted was emitted by one of them.
pub proof fn lemma_react_merges<Message, R: Renderer, W: Widget<Message, R>>(
    items: Seq<W>,
    layouts: Seq<LayoutView>,
    event: Event,
    cursor_position: Point,
    emitted: Seq<Message>,
    status: Status,
    cuts: Seq<int>,
    statuses: Seq<Status>,
)
    requires
        react_by::<Message, R, W>(
            items,
            layouts,
            event,
            cursor_position,
            emitted,
            status,
            cuts,
            statuses,
        ),
    ensures
        status == Status::Captured <==> exists|i: int|
            0 <= i < items.len() && statuses[i] == Status::Captured,
        items.len() == 0 ==> emitted.len() == 0 && status == Status::Ignored,
{
    lemma_merge_all_captured(statuses);
}

/// The primitives of the first `k` items, in order.
pub open spec fn drawn<Message, R: Renderer, W: Widget<Message, R>>(
    items: Seq<W>,
    renderer: &R,
    defaults: Defaults,
    layouts: Seq<LayoutView>,
    cursor_position: Point,
    viewport: Rectangle,
    k: int,
) -> Seq<PrimitiveView>
    decreases k,
{
    if k <= 0 {
        Seq::empty()
    } else {
        drawn::<Message, R, W>(items, renderer, defaults, layouts, cursor_position, viewport, k - 1)
            + items[k - 1].spec_draw(renderer, defaults, layouts[k - 1], cursor_position, viewport)
    }
}

/// What the first `k` items feed, in order.
pub open spec fn feed<Message, R: Renderer, W: Widget<Message, R>>(items: Seq<W>, k: int) -> Seq<
    Seq<u8>,
>
    decreases k,
{
    if k <= 0 {
        Seq::empty()
    } else {
        feed::<Message, R, W>(items, k - 1) + items[k - 1].layout_feed()
    }
}

/// Whether one of the items has an overlay to show.
pub open spec fn overlaid<Message, R: Renderer, W: Widget<Message, R>>(
    items: Seq<W>,
    layouts: Seq<LayoutView>,
) -> bool {
    exists|i: int| 0 <= i < items.len() && #[trigger] items[i].has_overlay(layouts[i])
}

/// The overlay of the first of the items that has one.
pub open spec fn shown<Message, R: Renderer, W: Widget<Message, R>>(
    items: Seq<W>,
    layouts: Seq<LayoutView>,
) -> Shown
    decreases items.len(),
{
    if items.len() == 0 {
        Shown::nothing()
    } else if items[0].has_overlay(layouts[0]) {
        items[0].spec_overlay(layouts[0])
    } else {
        shown::<Message, R, W>(items.skip(1), layouts.skip(1))
    }
}

/// Where the item at `index` has an overlay and none before it has one,
/// the overlay of the items is that of the item at `index`.
pub proof fn lemma_shown_is_first<Message, R: Renderer, W: Widget<Message, R>>(
    items: Seq<W>,
    layouts: Seq<LayoutView>,
    index: int,
)
    requires
        0 <= index < items.len(),
        layouts.len() == items.len(),
        items[index].has_overlay(layouts[index]),
        forall|i: int| 0 <= i < index ==> !(#[trigger] items[i]).has_overlay(layouts[i]),
    ensures
        shown::<Message, R, W>(items, layouts) == items[index].spec_overlay(layouts[index]),
    decreases index,
{
    if index > 0 {
        assert(!items[0].has_overlay(layouts[0]));
        let rest = items.skip(1);
        let places = layouts.skip(1);
        assert forall|i: int| 0 <= i < index - 1 implies !(#[trigger] rest[i]).has_overlay(
            places[i],
        ) by {
            assert(rest[i] == items[i + 1]);
            assert(!items[i + 1].has_overlay(layouts[i + 1]));
        }
        assert(rest[index - 1] == items[index]);
        assert(places[index - 1] == layouts[index]);
        lemma_shown_is_first::<Message, R, W>(rest, places, index - 1);
    }
}

} // verus!
