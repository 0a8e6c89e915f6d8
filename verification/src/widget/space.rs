//! Fill some space with nothing.
use crate::clipboard::Clipboard;
use crate::event::{Event, Status};
use crate::hasher::{lemma_word_injective, word, Hasher};
use crate::layout::limits::{lemma_narrowing, LimitsView};
use crate::layout::node::NodeView;
use crate::layout::{Layout, LayoutView, Limits, Node};
use crate::length::Length;
use crate::overlay;
use crate::point::Point;
use crate::rectangle::Rectangle;
use crate::renderer::{views, Defaults, Primitive, PrimitiveView, Renderer};
use crate::size::Size;
use crate::widget::{keeps_within, Widget};
use vstd::prelude::*;

verus! {

/// The mark that a [`Space`] feeds first.
pub const MARK: u64 = 1;

/// What a [`Space`] holds.
pub ghost struct SpaceView {
    /// The width policy.
    pub width: Length,
    /// The height policy.
    pub height: Length,
}

/// An amount of empty space.
///
/// It can be useful if you want to fill some space with nothing.
#[derive(Debug)]
pub struct Space {
    width: Length,
    height: Length,
}

impl View for Space {
    type V = SpaceView;

    closed spec fn view(&self) -> SpaceView {
        SpaceView { width: self.width, height: self.height }
    }
}

impl SpaceView {
    /// The size of the space within `limits`: the smallest that its
    /// policies allow.
    pub open spec fn size(self, limits: LimitsView) -> Size {
        limits.width(self.width).height(self.height).resolve(Size::spec_zero())
    }

    /// What the space feeds: its mark, its width and its height.
    pub open spec fn feed(self) -> Seq<Seq<u8>> {
        seq![word(MARK), word(self.width.spec_code()), word(self.height.spec_code())]
    }
}

impl Space {
    /// Creates an amount of empty [`Space`] with the given width and height.
    pub fn new(width: Length, height: Length) -> (space: Self)
        ensures
            space@ == (SpaceView { width, height }),
    {
        Space { width, height }
    }

    /// Creates an amount of horizontal [`Space`].
    pub fn with_width(width: Length) -> (space: Self)
        ensures
            space@ == (SpaceView { width, height: Length::Shrink }),
    {
        Space { width, height: Length::Shrink }
    }

    /// Creates an amount of vertical [`Space`].
    pub fn with_height(height: Length) -> (space: Self)
        ensures
            space@ == (SpaceView { width: Length::Shrink, height }),
    {
        Space { width: Length::Shrink, height }
    }
}

/// Two spaces feed the same exactly if they have the same width and the
/// same height, which is all that a space holds.
pub proof fn lemma_space_feed(a: SpaceView, b: SpaceView)
    ensures
        a.feed() == b.feed() <==> a == b,
{
    if a.feed() == b.feed() {
        assert(a.feed()[1] == b.feed()[1]);
        assert(a.feed()[2] == b.feed()[2]);
        lemma_word_injective(a.width.spec_code(), b.width.spec_code());
        lemma_word_injective(a.height.spec_code(), b.height.spec_code());
        Length::lemma_code_injective(a.width, b.width);
        Length::lemma_code_injective(a.height, b.height);
    }
}

/// A space keeps within its limits.
pub proof fn lemma_space_keeps_within<Message, R: Renderer>(space: Space, renderer: &R)
    ensures
        keeps_within::<Message, R, Space>(space, renderer),
{
    assert forall|limits: LimitsView| limits.wf() implies limits.contains(
        #[trigger] <Space as Widget<Message, R>>::spec_layout(&space, renderer, limits).size(),
    ) by {
        lemma_narrowing(limits, space@.width, 0);
        lemma_narrowing(limits.width(space@.width), space@.height, 0);
    }
}

impl<Message, R: Renderer> Widget<Message, R> for Space {
    open spec fn spec_width(&self) -> Length {
        self@.width
    }

    open spec fn spec_height(&self) -> Length {
        self@.height
    }

    open spec fn spec_layout(&self, renderer: &R, limits: LimitsView) -> NodeView {
        NodeView::leaf(self@.size(limits))
    }

    open spec fn accepts(&self, children: Seq<NodeView>) -> bool {
        children.len() == 0
    }

    /// A space ignores every event.
    open spec fn reacts(
        &self,
        event: Event,
        layout: LayoutView,
        cursor_position: Point,
        emitted: Seq<Message>,
        status: Status,
    ) -> bool {
        emitted.len() == 0 && status == Status::Ignored
    }

    open spec fn spec_draw(
        &self,
        renderer: &R,
        defaults: Defaults,
        layout: LayoutView,
        cursor_position: Point,
        viewport: Rectangle,
    ) -> Seq<PrimitiveView> {
        seq![PrimitiveView::Space { bounds: layout.bounds() }]
    }

    open spec fn layout_feed(&self) -> Seq<Seq<u8>> {
        self@.feed()
    }

    open spec fn has_overlay(&self, layout: LayoutView) -> bool {
        false
    }

    open spec fn spec_overlay(&self, layout: LayoutView) -> overlay::Shown {
        overlay::Shown::nothing()
    }

    fn width(&self) -> (width: Length) {
        self.width
    }

    fn height(&self) -> (height: Length) {
        self.height
    }

    fn layout(&self, renderer: &R, limits: &Limits) -> (node: Node) {
        let wide = limits.width(self.width);
        let inner = wide.height(self.height);
        proof {
            use_type_invariant(limits);
            use_type_invariant(wide);
            lemma_narrowing(limits@, self.width, 0);
            lemma_narrowing(wide@, self.height, 0);
        }
        Node::new(inner.resolve(Size::zero()))
    }

    fn on_event(
        &mut self,
        event: Event,
        layout: Layout<'_>,
        cursor_position: Point,
        renderer: &R,
        clipboard: &mut Box<dyn Clipboard>,
        messages: &mut Vec<Message>,
    ) -> (status: Status)
        ensures
            final(self)@ == old(self)@,
    {
        assert(messages@.skip(messages@.len() as int) =~= Seq::empty());
        Status::Ignored
    }

    fn draw(
        &self,
        renderer: &R,
        defaults: &Defaults,
        layout: Layout<'_>,
        cursor_position: Point,
        viewport: &Rectangle,
    ) -> (primitives: Vec<Primitive>) {
        let mut primitives = Vec::new();
        primitives.push(Primitive::Space { bounds: layout.bounds() });
        assert(views(primitives@) =~= seq![PrimitiveView::Space { bounds: layout@.bounds() }]);
        primitives
    }

    fn hash_layout(&self, state: &mut Hasher) {
        state.feed_u64(MARK);
        state.feed_u64(self.width.code());
        state.feed_u64(self.height.code());
        assert(state@ =~= old(state)@ + self@.feed());
    }

    fn overlay(&mut self, layout: Layout<'_>) -> (overlay: Option<overlay::Element<'_, Message, R>>) {
        None
    }
}

} // verus!
