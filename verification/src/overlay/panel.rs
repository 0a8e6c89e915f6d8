//! A plain floating box.
use crate::clipboard::Clipboard;
use crate::event::{Event, Status};
use crate::hasher::{word, Hasher};
use crate::layout::node::NodeView;
use crate::layout::{Layout, LayoutView, Node};
use crate::mapper::Mapper;
use crate::overlay::{inside_viewport, Overlay};
use crate::point::Point;
use crate::rectangle::Rectangle;
use crate::renderer::{views, Defaults, Primitive, PrimitiveView, Renderer, Style};
use crate::size::Size;
use crate::units::{min, spec_max, spec_min};
use vstd::prelude::*;

verus! {

/// The mark that a [`Panel`] feeds first.
pub const MARK: u64 = 7;

/// Where content of the given length, anchored at `anchor`, starts in a
/// viewport of the given length: at the anchor, moved back into the
/// viewport as far as needed.
pub open spec fn start_in(anchor: i32, length: u32, viewport: u32) -> int {
    spec_min(spec_max(anchor as int, 0), viewport - spec_min(length as int, viewport as int))
}

/// The number that stands for a coordinate in a fingerprint.
pub open spec fn coordinate_code(coordinate: i32) -> u64 {
    (coordinate + 0x8000_0000) as u64
}

/// What a [`Panel`] holds, but for the function that makes its message.
pub ghost struct PanelView {
    /// The size that the panel takes where the viewport allows it.
    pub size: Size,
    /// The style of the panel.
    pub style: Style,
}

impl PanelView {
    /// The bounds of the panel anchored at `position` in a viewport of
    /// size `viewport`: no larger than the viewport, and inside it.
    pub open spec fn bounds(self, viewport: Size, position: Point) -> Rectangle {
        Rectangle {
            x: start_in(position.x, self.size.width, viewport.width) as i32,
            y: start_in(position.y, self.size.height, viewport.height) as i32,
            width: spec_min(self.size.width as int, viewport.width as int) as u32,
            height: spec_min(self.size.height as int, viewport.height as int) as u32,
        }
    }

    /// What the panel feeds at `position`: its mark, its size and the
    /// position.
    pub open spec fn feed(self, position: Point) -> Seq<Seq<u8>> {
        seq![
            word(MARK),
            word(self.size.width as u64),
            word(self.size.height as u64),
            word(coordinate_code(position.x)),
            word(coordinate_code(position.y)),
        ]
    }
}

/// A box of a given size that floats at its anchor, kept inside the
/// viewport, and tells where it was pressed.
#[verifier::reject_recursive_types(Message)]
#[verifier::reject_recursive_types(F)]
pub struct Panel<Message, F: Fn(Point) -> Message> {
    size: Size,
    style: Style,
    on_press: Mapper<Point, Message, F>,
}

impl<Message, F: Fn(Point) -> Message> View for Panel<Message, F> {
    type V = PanelView;

    closed spec fn view(&self) -> PanelView {
        PanelView { size: self.size, style: self.style }
    }
}

/// Where content of the given length, anchored at `anchor`, starts in a
/// viewport of the given length.
fn start(anchor: i32, length: u32, viewport: u32) -> (at: i32)
    ensures
        at == start_in(anchor, length, viewport),
        0 <= at,
        at + spec_min(length as int, viewport as int) <= viewport,
{
    let room = viewport - min(length, viewport);
    if anchor <= 0 {
        0
    } else if anchor as u32 <= room {
        anchor
    } else {
        room as i32
    }
}

impl<Message, F: Fn(Point) -> Message> Panel<Message, F> {
    /// The function that makes the message of a press from where it was.
    pub closed spec fn on_press(&self) -> Mapper<Point, Message, F> {
        self.on_press
    }

    /// Creates a [`Panel`] of the given size. `on_press` makes a message
    /// of the position of a press inside the panel.
    pub fn new(size: Size, on_press: F) -> (panel: Self)
        requires
            forall|position: Point| call_requires(on_press, (position,)),
        ensures
            panel@ == (PanelView { size, style: Style(0) }),
            panel.on_press().wraps(on_press),
    {
        Panel { size, style: Style(0), on_press: Mapper::new(on_press) }
    }

    /// Sets the style of the [`Panel`].
    pub fn style(self, style: Style) -> (panel: Self)
        ensures
            panel@ == (PanelView { style, ..self@ }),
            panel.on_press() == self.on_press(),
    {
        let mut panel = self;
        panel.style = style;
        panel
    }
}

impl<Message, R: Renderer, F: Fn(Point) -> Message> Overlay<Message, R> for Panel<Message, F> {
    open spec fn spec_layout(&self, renderer: &R, bounds: Size, position: Point) -> NodeView {
        NodeView { bounds: self@.bounds(bounds, position), children: Seq::empty() }
    }

    /// A press inside the bounds emits the message of its position and is
    /// captured; everything else is ignored.
    open spec fn reacts(
        &self,
        event: Event,
        layout: LayoutView,
        cursor_position: Point,
        emitted: Seq<Message>,
        status: Status,
    ) -> bool {
        if event.spec_is_press() && layout.bounds().spec_contains(cursor_position) {
            &&& emitted.len() == 1
            &&& self.on_press().maps(cursor_position, emitted[0])
            &&& status == Status::Captured
        } else {
            emitted.len() == 0 && status == Status::Ignored
        }
    }

    open spec fn spec_draw(
        &self,
        renderer: &R,
        defaults: Defaults,
        layout: LayoutView,
        cursor_position: Point,
    ) -> Seq<PrimitiveView> {
        seq![PrimitiveView::Container { bounds: layout.bounds(), style: self@.style }]
    }

    open spec fn layout_feed(&self, position: Point) -> Seq<Seq<u8>> {
        self@.feed(position)
    }

    fn layout(&self, renderer: &R, bounds: Size, position: Point) -> (node: Node) {
        let size = Size {
            width: min(self.size.width, bounds.width),
            height: min(self.size.height, bounds.height),
        };
        let mut node = Node::new(size);
        node.move_to(
            Point {
                x: start(position.x, self.size.width, bounds.width),
                y: start(position.y, self.size.height, bounds.height),
            },
        );
        node
    }

    fn on_event(
        &mut self,
        event: Event,
        layout: Layout<'_>,
        cursor_position: Point,
        renderer: &R,
        clipboard: &mut Box<dyn Clipboard>,
        messages: &mut Vec<Message>,
    ) -> (status: Status)
        ensures
            final(self)@ == old(self)@,
            final(self).on_press() == old(self).on_press(),
    {
        if event.is_press() && layout.bounds().contains(cursor_position) {
            let message = self.on_press.apply(cursor_position);
            messages.push(message);
            assert(messages@.skip(old(messages)@.len() as int) =~= seq![message]);
            Status::Captured
        } else {
            assert(messages@.skip(messages@.len() as int) =~= Seq::empty());
            Status::Ignored
        }
    }

    fn draw(
        &self,
        renderer: &R,
        defaults: &Defaults,
        layout: Layout<'_>,
        cursor_position: Point,
    ) -> (primitives: Vec<Primitive>) {
        let mut primitives = Vec::new();
        primitives.push(Primitive::Container { bounds: layout.bounds(), style: self.style });
        assert(views(primitives@) =~= seq![
            PrimitiveView::Container { bounds: layout@.bounds(), style: self@.style },
        ]);
        primitives
    }

    fn hash_layout(&self, state: &mut Hasher, position: Point) {
        state.feed_u64(MARK);
        state.feed_u64(self.size.width as u64);
        state.feed_u64(self.size.height as u64);
        state.feed_u64((position.x as i64 + 0x8000_0000) as u64);
        state.feed_u64((position.y as i64 + 0x8000_0000) as u64);
        assert(state@ =~= old(state)@ + self@.feed(position));
    }
}

} // verus!
