//! Distribute content horizontally.
use crate::alignment::Alignment;
use crate::clipboard::Clipboard;
use crate::element::Element;
use crate::event::{merge_all, Event, Status};
use crate::hasher::{lemma_word_injective, word, Hasher};
use crate::layout::flex::{
    consumed, lemma_alignment_leaves_main_axis, lemma_container_hugs_children, lemma_no_children,
    main_offset, raw_nodes, resolve, spec_resolve, Axis,
};
use crate::layout::limits::{lemma_narrowing, LimitsView};
use crate::layout::node::NodeView;
use crate::layout::{Layout, LayoutView, Limits, Node};
use crate::length::Length;
use crate::overlay;
use crate::padding::Padding;
use crate::point::Point;
use crate::rectangle::Rectangle;
use crate::renderer::{views, Defaults, Primitive, PrimitiveView, Renderer};
use crate::widget::children;
use crate::widget::{keeps_within, Widget};
use vstd::prelude::*;

verus! {

/// The mark that a [`Row`] feeds first.
pub const MARK: u64 = 6;

/// What a [`Row`] holds.
#[verifier::reject_recursive_types(Message)]
#[verifier::reject_recursive_types(R)]
pub ghost struct RowView<'a, Message, R: Renderer> {
    /// The horizontal space between children.
    pub spacing: u16,
    /// The space around the children.
    pub padding: Padding,
    /// The width policy.
    pub width: Length,
    /// The height policy.
    pub height: Length,
    /// The largest width allowed.
    pub max_width: u32,
    /// The largest height allowed.
    pub max_height: u32,
    /// How the children are aligned vertically.
    pub align_items: Alignment,
    /// The children, from left to right.
    pub children: Seq<Element<'a, Message, R>>,
}

impl<'a, Message, R: Renderer> RowView<'a, Message, R> {
    /// A row of the given children with nothing else set: no spacing, no
    /// padding, as small as its children allow, aligned at the top.
    pub open spec fn with_children(children: Seq<Element<'a, Message, R>>) -> Self {
        RowView {
            spacing: 0,
            padding: Padding::spec_zero(),
            width: Length::Shrink,
            height: Length::Shrink,
            max_width: u32::MAX,
            max_height: u32::MAX,
            align_items: Alignment::Start,
            children,
        }
    }

    /// The window that the row lays its children out in: `limits` with the
    /// bounds and policies of the row applied.
    pub open spec fn limits(self, limits: LimitsView) -> LimitsView {
        limits.max_width(self.max_width).max_height(self.max_height).width(self.width).height(
            self.height,
        )
    }

    /// What the row feeds before its children: its mark and every field
    /// that its layout depends on.
    pub open spec fn own_feed(self) -> Seq<Seq<u8>> {
        seq![
            word(MARK),
            word(self.width.spec_code()),
            word(self.height.spec_code()),
            word(self.max_width as u64),
            word(self.max_height as u64),
            word(self.align_items.spec_code()),
            word(self.spacing as u64),
            word(self.padding.top as u64),
            word(self.padding.right as u64),
            word(self.padding.bottom as u64),
            word(self.padding.left as u64),
        ]
    }
}

/// A container that distributes its contents horizontally.
#[verifier::reject_recursive_types(Message)]
#[verifier::reject_recursive_types(R)]
pub struct Row<'a, Message, R: Renderer> {
    spacing: u16,
    padding: Padding,
    width: Length,
    height: Length,
    max_width: u32,
    max_height: u32,
    align_items: Alignment,
    children: Vec<Element<'a, Message, R>>,
}

impl<'a, Message, R: Renderer> View for Row<'a, Message, R> {
    type V = RowView<'a, Message, R>;

    closed spec fn view(&self) -> RowView<'a, Message, R> {
        RowView {
            spacing: self.spacing,
            padding: self.padding,
            width: self.width,
            height: self.height,
            max_width: self.max_width,
            max_height: self.max_height,
            align_items: self.align_items,
            children: self.children@,
        }
    }
}

impl<'a, Message, R: Renderer> Row<'a, Message, R> {
    /// Creates an empty [`Row`].
    pub fn new() -> (row: Self)
        ensures
            row@ == RowView::<'a, Message, R>::with_children(Seq::empty()),
    {
        Self::with_children(Vec::new())
    }

    /// Creates a [`Row`] with the given elements.
    pub fn with_children(children: Vec<Element<'a, Message, R>>) -> (row: Self)
        ensures
            row@ == RowView::with_children(children@),
    {
        Row {
            spacing: 0,
            padding: Padding::zero(),
            width: Length::Shrink,
            height: Length::Shrink,
            max_width: u32::MAX,
            max_height: u32::MAX,
            align_items: Alignment::Start,
            children,
        }
    }

    /// Sets the horizontal spacing _between_ elements.
    ///
    /// Custom margins per element do not exist. You should use this method
    /// instead! While less flexible, it helps you keep spacing between
    /// elements consistent.
    pub fn spacing(self, units: u16) -> (row: Self)
        ensures
            row@ == (RowView { spacing: units, ..self@ }),
    {
        let mut row = self;
        row.spacing = units;
        row
    }

    /// Sets the [`Padding`] of the [`Row`].
    pub fn padding(self, padding: Padding) -> (row: Self)
        ensures
            row@ == (RowView { padding, ..self@ }),
    {
        let mut row = self;
        row.padding = padding;
        row
    }

    /// Sets the width of the [`Row`].
    pub fn width(self, width: Length) -> (row: Self)
        ensures
            row@ == (RowView { width, ..self@ }),
    {
        let mut row = self;
        row.width = width;
        row
    }

    /// Sets the height of the [`Row`].
    pub fn height(self, height: Length) -> (row: Self)
        ensures
            row@ == (RowView { height, ..self@ }),
    {
        let mut row = self;
        row.height = height;
        row
    }

    /// Sets the maximum width of the [`Row`].
    pub fn max_width(self, max_width: u32) -> (row: Self)
        ensures
            row@ == (RowView { max_width, ..self@ }),
    {
        let mut row = self;
        row.max_width = max_width;
        row
    }

    /// Sets the maximum height of the [`Row`].
    pub fn max_height(self, max_height: u32) -> (row: Self)
        ensures
            row@ == (RowView { max_height, ..self@ }),
    {
        let mut row = self;
        row.max_height = max_height;
        row
    }

    /// Sets the vertical alignment of the contents of the [`Row`] .
    pub fn align_items(self, align: Alignment) -> (row: Self)
        ensures
            row@ == (RowView { align_items: align, ..self@ }),
    {
        let mut row = self;
        row.align_items = align;
        row
    }

    /// Adds an [`Element`] to the [`Row`], after those it holds.
    pub fn push(self, child: Element<'a, Message, R>) -> (row: Self)
        ensures
            row@ == (RowView { children: self@.children.push(child), ..self@ }),
    {
        let mut row = self;
        row.children.push(child);
        row
    }
}

/// Two rows feed the same before their children exactly if they agree on
/// every field that their layout depends on.
pub proof fn lemma_row_feed<'a, Message, R: Renderer>(
    a: RowView<'a, Message, R>,
    b: RowView<'a, Message, R>,
)
    ensures
        a.own_feed() == b.own_feed() <==> {
            &&& a.width == b.width
            &&& a.height == b.height
            &&& a.max_width == b.max_width
            &&& a.max_height == b.max_height
            &&& a.align_items == b.align_items
            &&& a.spacing == b.spacing
            &&& a.padding == b.padding
        },
{
    if a.own_feed() == b.own_feed() {
        assert forall|i: int| 0 <= i < 11 implies a.own_feed()[i] == b.own_feed()[i] by {}
        assert(a.own_feed()[1] == b.own_feed()[1]);
        assert(a.own_feed()[2] == b.own_feed()[2]);
        assert(a.own_feed()[3] == b.own_feed()[3]);
        assert(a.own_feed()[4] == b.own_feed()[4]);
        assert(a.own_feed()[5] == b.own_feed()[5]);
        assert(a.own_feed()[6] == b.own_feed()[6]);
        assert(a.own_feed()[7] == b.own_feed()[7]);
        assert(a.own_feed()[8] == b.own_feed()[8]);
        assert(a.own_feed()[9] == b.own_feed()[9]);
        assert(a.own_feed()[10] == b.own_feed()[10]);
        lemma_word_injective(a.width.spec_code(), b.width.spec_code());
        lemma_word_injective(a.height.spec_code(), b.height.spec_code());
        lemma_word_injective(a.max_width as u64, b.max_width as u64);
        lemma_word_injective(a.max_height as u64, b.max_height as u64);
        lemma_word_injective(a.align_items.spec_code(), b.align_items.spec_code());
        lemma_word_injective(a.spacing as u64, b.spacing as u64);
        lemma_word_injective(a.padding.top as u64, b.padding.top as u64);
        lemma_word_injective(a.padding.right as u64, b.padding.right as u64);
        lemma_word_injective(a.padding.bottom as u64, b.padding.bottom as u64);
        lemma_word_injective(a.padding.left as u64, b.padding.left as u64);
        Length::lemma_code_injective(a.width, b.width);
        Length::lemma_code_injective(a.height, b.height);
    }
}

/// Two rows that agree on every field that their layout depends on, and
/// whose children feed the same, feed the same.
pub proof fn lemma_row_same_fields_same_feed<'a, Message, R: Renderer>(
    a: Row<'a, Message, R>,
    b: Row<'a, Message, R>,
)
    requires
        a@.width == b@.width,
        a@.height == b@.height,
        a@.max_width == b@.max_width,
        a@.max_height == b@.max_height,
        a@.align_items == b@.align_items,
        a@.spacing == b@.spacing,
        a@.padding == b@.padding,
        children::feed::<Message, R, Element<'a, Message, R>>(
            a@.children,
            a@.children.len() as int,
        ) == children::feed::<Message, R, Element<'a, Message, R>>(
            b@.children,
            b@.children.len() as int,
        ),
    ensures
        <Row<'a, Message, R> as Widget<Message, R>>::layout_feed(&a) == <Row<
            'a,
            Message,
            R,
        > as Widget<Message, R>>::layout_feed(&b),
{
    lemma_row_feed(a@, b@);
}

/// Two rows that feed the same agree on every field that their layout
/// depends on, whatever their children: a change of one of these fields
/// changes what the row feeds.
pub proof fn lemma_row_fields_change_feed<'a, Message, R: Renderer>(
    a: Row<'a, Message, R>,
    b: Row<'a, Message, R>,
)
    requires
        <Row<'a, Message, R> as Widget<Message, R>>::layout_feed(&a) == <Row<
            'a,
            Message,
            R,
        > as Widget<Message, R>>::layout_feed(&b),
    ensures
        a@.width == b@.width,
        a@.height == b@.height,
        a@.max_width == b@.max_width,
        a@.max_height == b@.max_height,
        a@.align_items == b@.align_items,
        a@.spacing == b@.spacing,
        a@.padding == b@.padding,
{
    let one = <Row<'a, Message, R> as Widget<Message, R>>::layout_feed(&a);
    let other = <Row<'a, Message, R> as Widget<Message, R>>::layout_feed(&b);
    assert forall|i: int| 0 <= i < 11 implies a@.own_feed()[i] == b@.own_feed()[i] by {
        assert(one[i] == a@.own_feed()[i]);
        assert(other[i] == b@.own_feed()[i]);
    }
    assert(a@.own_feed() =~= b@.own_feed());
    lemma_row_feed(a@, b@);
}

/// A row that shrinks, without padding, in a window without a minimum
/// width that has room for its children: the row is as wide as its
/// children and the spacing between them, and each child is as wide as it
/// was laid out and starts where the children before it and the spacing
/// end.
pub proof fn lemma_row_is_as_wide_as_its_children<'a, Message, R: Renderer>(
    row: Row<'a, Message, R>,
    renderer: &R,
    limits: LimitsView,
    index: int,
)
    requires
        limits.wf(),
        limits.min.width == 0,
        row@.width == Length::Shrink,
        row@.padding == Padding::spec_zero(),
        0 <= index < row@.children.len(),
        consumed(
            Axis::Horizontal,
            row@.spacing as u32,
            raw_nodes::<Message, R, Element<'a, Message, R>>(
                Axis::Horizontal,
                renderer,
                row@.limits(limits),
                row@.spacing as u32,
                row@.children,
            ),
        ) <= limits.max.width,
        consumed(
            Axis::Horizontal,
            row@.spacing as u32,
            raw_nodes::<Message, R, Element<'a, Message, R>>(
                Axis::Horizontal,
                renderer,
                row@.limits(limits),
                row@.spacing as u32,
                row@.children,
            ),
        ) <= row@.max_width,
    ensures
        ({
            let nodes = raw_nodes::<Message, R, Element<'a, Message, R>>(
                Axis::Horizontal,
                renderer,
                row@.limits(limits),
                row@.spacing as u32,
                row@.children,
            );
            let node = <Row<'a, Message, R> as Widget<Message, R>>::spec_layout(
                &row,
                renderer,
                limits,
            );
            &&& node.size().width == consumed(Axis::Horizontal, row@.spacing as u32, nodes)
            &&& node.children.len() == row@.children.len()
            &&& node.children[index].size().width == nodes[index].size().width
            &&& node.children[index].bounds.x == crate::units::clamp_coord(
                main_offset(Axis::Horizontal, row@.padding, row@.spacing as u32, nodes, index),
            )
        }),
{
    let window = row@.limits(limits);
    let spacing = row@.spacing as u32;
    assert(window.pad(row@.padding) == window);
    let nodes = raw_nodes::<Message, R, Element<'a, Message, R>>(
        Axis::Horizontal,
        renderer,
        window,
        spacing,
        row@.children,
    );
    crate::layout::limits::lemma_transformations_keep_wf(
        limits,
        row@.width,
        row@.max_width,
        crate::size::Size::spec_zero(),
        row@.padding,
    );
    crate::layout::flex::lemma_main_sum_nonnegative(Axis::Horizontal, nodes, nodes.len() as int);
    assert(0 <= spacing * (nodes.len() - 1)) by (nonlinear_arith)
        requires
            nodes.len() >= 1,
            spacing >= 0,
    ;
    lemma_container_hugs_children(Axis::Horizontal, window, row@.padding, spacing, nodes);
    lemma_alignment_leaves_main_axis(
        Axis::Horizontal,
        window,
        row@.padding,
        spacing,
        row@.align_items,
        row@.align_items,
        nodes,
        index,
    );
}

/// A row without children that shrinks on both axes is as large as its
/// padding: with `padding` units on every side it is `2 * padding` wide
/// and high, wherever the limits allow that size.
pub proof fn lemma_empty_row_is_its_padding<'a, Message, R: Renderer>(
    row: Row<'a, Message, R>,
    renderer: &R,
    limits: LimitsView,
    padding: u16,
)
    requires
        limits.wf(),
        row@.children.len() == 0,
        row@.width == Length::Shrink,
        row@.height == Length::Shrink,
        row@.padding == Padding::uniform(padding),
        limits.min.width <= 2 * padding <= limits.max.width,
        limits.min.height <= 2 * padding <= limits.max.height,
        2 * padding <= row@.max_width,
        2 * padding <= row@.max_height,
    ensures
        <Row<'a, Message, R> as Widget<Message, R>>::spec_layout(&row, renderer, limits).size()
            == (crate::size::Size { width: (2 * padding) as u32, height: (2 * padding) as u32 }),
        <Row<'a, Message, R> as Widget<Message, R>>::spec_layout(
            &row,
            renderer,
            limits,
        ).children.len() == 0,
{
    let window = row@.limits(limits);
    let nodes = raw_nodes::<Message, R, Element<'a, Message, R>>(
        Axis::Horizontal,
        renderer,
        window.pad(row@.padding),
        row@.spacing as u32,
        row@.children,
    );
    assert(nodes =~= Seq::empty());
    lemma_no_children(
        Axis::Horizontal,
        window,
        row@.padding,
        row@.spacing as u32,
        row@.align_items,
    );
}

/// A row keeps within its limits, whatever its children do.
pub proof fn lemma_row_keeps_within<'a, Message, R: Renderer>(row: Row<'a, Message, R>, renderer: &R)
    ensures
        keeps_within::<Message, R, Row<'a, Message, R>>(row, renderer),
{
    assert forall|limits: LimitsView| limits.wf() implies limits.contains(
        #[trigger] <Row<'a, Message, R> as Widget<Message, R>>::spec_layout(
            &row,
            renderer,
            limits,
        ).size(),
    ) by {
        lemma_narrowing(limits, row@.width, row@.max_width);
        lemma_narrowing(limits.max_width(row@.max_width), row@.width, row@.max_height);
        let low = limits.max_width(row@.max_width).max_height(row@.max_height);
        lemma_narrowing(low, row@.width, 0);
        lemma_narrowing(low.width(row@.width), row@.height, 0);
    }
}

impl<'a, Message, R: Renderer> Widget<Message, R> for Row<'a, Message, R> {
    open spec fn spec_width(&self) -> Length {
        self@.width
    }

    open spec fn spec_height(&self) -> Length {
        self@.height
    }

    /// The flex layout of the children along the horizontal axis, in the
    /// window that the row's own bounds and policies leave of `limits`.
    open spec fn spec_layout(&self, renderer: &R, limits: LimitsView) -> NodeView {
        spec_resolve::<Message, R, Element<'a, Message, R>>(
            Axis::Horizontal,
            renderer,
            self@.limits(limits),
            self@.padding,
            self@.spacing as u32,
            self@.align_items,
            self@.children,
        )
    }

    open spec fn accepts(&self, children: Seq<NodeView>) -> bool {
        children::accept::<Message, R, Element<'a, Message, R>>(self@.children, children)
    }

    /// Every child is offered the event, with its own layout.
    open spec fn reacts(
        &self,
        event: Event,
        layout: LayoutView,
        cursor_position: Point,
        emitted: Seq<Message>,
        status: Status,
    ) -> bool {
        children::react::<Message, R, Element<'a, Message, R>>(
            self@.children,
            layout.children(),
            event,
            cursor_position,
            emitted,
            status,
        )
    }

    /// The primitives of the children, from the first child to the last.
    open spec fn spec_draw(
        &self,
        renderer: &R,
        defaults: Defaults,
        layout: LayoutView,
        cursor_position: Point,
        viewport: Rectangle,
    ) -> Seq<PrimitiveView> {
        children::drawn::<Message, R, Element<'a, Message, R>>(
            self@.children,
            renderer,
            defaults,
            layout.children(),
            cursor_position,
            viewport,
            self@.children.len() as int,
        )
    }

    open spec fn layout_feed(&self) -> Seq<Seq<u8>> {
        self@.own_feed() + children::feed::<Message, R, Element<'a, Message, R>>(
            self@.children,
            self@.children.len() as int,
        )
    }

    open spec fn has_overlay(&self, layout: LayoutView) -> bool {
        children::overlaid::<Message, R, Element<'a, Message, R>>(
            self@.children,
            layout.children(),
        )
    }

    /// The overlay of the first child that has one.
    open spec fn spec_overlay(&self, layout: LayoutView) -> overlay::Shown {
        children::shown::<Message, R, Element<'a, Message, R>>(self@.children, layout.children())
    }

    fn width(&self) -> (width: Length) {
        self.width
    }

    fn height(&self) -> (height: Length) {
        self.height
    }

    fn layout(&self, renderer: &R, limits: &Limits) -> (node: Node) {
        let narrow = limits.max_width(self.max_width);
        let low = narrow.max_height(self.max_height);
        let wide = low.width(self.width);
        let inner = wide.height(self.height);
        proof {
            use_type_invariant(limits);
            use_type_invariant(narrow);
            use_type_invariant(low);
            use_type_invariant(wide);
            lemma_narrowing(limits@, self.width, self.max_width);
            lemma_narrowing(narrow@, self.width, self.max_height);
            lemma_narrowing(low@, self.width, 0);
            lemma_narrowing(wide@, self.height, 0);
        }
        resolve::<Message, R, Element<'a, Message, R>>(
            Axis::Horizontal,
            renderer,
            &inner,
            self.padding,
            self.spacing as u32,
            self.align_items,
            self.children.as_slice(),
        )
    }

    fn on_event(
        &mut self,
        event: Event,
        layout: Layout<'_>,
        cursor_position: Point,
        renderer: &R,
        clipboard: &mut Box<dyn Clipboard>,
        messages: &mut Vec<Message>,
    ) -> (status: Status)
        ensures
            final(self)@ == (RowView { children: final(self)@.children, ..old(self)@ }),
            final(self)@.children.len() == old(self)@.children.len(),
    {
        let layouts = layout.children();
        let n = self.children.len();
        let ghost before = self.children@;
        let ghost places = layout@.children();
        let ghost start = messages@.len() as int;
        let ghost cuts: Seq<int> = seq![0int];
        let ghost statuses: Seq<Status> = Seq::empty();
        let mut status = Status::Ignored;
        let mut i: usize = 0;
        assert(messages@.skip(start) =~= Seq::empty());
        assert(crate::layout::views(layouts@).len() == layouts@.len());
        while i < n
            invariant
                i <= n,
                n == before.len(),
                self.children@.len() == n,
                layouts@.len() == n,
                places.len() == n,
                crate::layout::views(layouts@) == places,
                places == layout@.children(),
                self@ == (RowView { children: self.children@, ..old(self)@ }),
                forall|j: int| i <= j < n ==> self.children@[j] == before[j],
                forall|j: int|
                    0 <= j < n ==> (#[trigger] self.children@[j]).accepts(places[j].node.children),
                start == old(messages)@.len(),
                old(messages)@.is_prefix_of(messages@),
                cuts.len() == i + 1,
                statuses.len() == i,
                cuts[0] == 0,
                cuts[i as int] == messages@.len() - start,
                forall|j: int| 0 <= j < i ==> cuts[j] <= #[trigger] cuts[j + 1],
                forall|j: int|
                    0 <= j < i ==> (#[trigger] before[j]).reacts(
                        event,
                        places[j],
                        cursor_position,
                        messages@.skip(start).subrange(cuts[j], cuts[j + 1]),
                        statuses[j],
                    ),
                status == merge_all(statuses),
            decreases n - i,
        {
            let ghost earlier = messages@;
            assert(crate::layout::views(layouts@)[i as int] == layouts@[i as int]@);
            let child_status = self.children[i].on_event(
                event,
                layouts[i],
                cursor_position,
                renderer,
                clipboard,
                messages,
            );
            status = status.merge(child_status);
            proof {
                let cut = messages@.len() - start;
                assert(statuses.push(child_status).drop_last() =~= statuses);
                assert forall|j: int| 0 <= j < i implies messages@.skip(start).subrange(
                    cuts[j],
                    #[trigger] cuts[j + 1],
                ) == earlier.skip(start).subrange(cuts[j], cuts[j + 1]) by {
                    lemma_cuts_bounded(cuts, i as int, j);
                    lemma_cuts_bounded(cuts, i as int, j + 1);
                    assert(messages@.skip(start).subrange(cuts[j], cuts[j + 1]) =~= earlier.skip(
                        start,
                    ).subrange(cuts[j], cuts[j + 1]));
                }
                assert(messages@.skip(start).subrange(cuts[i as int], cut) =~= messages@.skip(
                    earlier.len() as int,
                ));
                cuts = cuts.push(cut);
                statuses = statuses.push(child_status);
            }
            i += 1;
        }
        proof {
            assert(children::react_by::<Message, R, Element<'a, Message, R>>(
                before,
                places,
                event,
                cursor_position,
                messages@.skip(start),
                status,
                cuts,
                statuses,
            ));
        }
        status
    }

    fn draw(
        &self,
        renderer: &R,
        defaults: &Defaults,
        layout: Layout<'_>,
        cursor_position: Point,
        viewport: &Rectangle,
    ) -> (primitives: Vec<Primitive>) {
        let layouts = layout.children();
        let n = self.children.len();
        let ghost places = layout@.children();
        let mut primitives: Vec<Primitive> = Vec::new();
        let mut i: usize = 0;
        assert(views(primitives@) =~= Seq::empty());
        assert(crate::layout::views(layouts@).len() == layouts@.len());
        while i < n
            invariant
                i <= n,
                n == self.children@.len(),
                layouts@.len() == n,
                places.len() == n,
                crate::layout::views(layouts@) == places,
                forall|j: int|
                    0 <= j < n ==> (#[trigger] self.children@[j]).accepts(places[j].node.children),
                views(primitives@) == children::drawn::<Message, R, Element<'a, Message, R>>(
                    self.children@,
                    renderer,
                    *defaults,
                    places,
                    cursor_position,
                    *viewport,
                    i as int,
                ),
            decreases n - i,
        {
            assert(crate::layout::views(layouts@)[i as int] == layouts@[i as int]@);
            let mut part = self.children[i].draw(
                renderer,
                defaults,
                layouts[i],
                cursor_position,
                viewport,
            );
            proof {
                crate::renderer::lemma_views_concat(primitives@, part@);
            }
            primitives.append(&mut part);
            i += 1;
        }
        primitives
    }

    fn hash_layout(&self, state: &mut Hasher) {
        state.feed_u64(MARK);
        state.feed_u64(self.width.code());
        state.feed_u64(self.height.code());
        state.feed_u64(self.max_width as u64);
        state.feed_u64(self.max_height as u64);
        state.feed_u64(self.align_items.code());
        state.feed_u64(self.spacing as u64);
        state.feed_u64(self.padding.top as u64);
        state.feed_u64(self.padding.right as u64);
        state.feed_u64(self.padding.bottom as u64);
        state.feed_u64(self.padding.left as u64);
        assert(state@ =~= old(state)@ + self@.own_feed());
        let n = self.children.len();
        let mut i: usize = 0;
        while i < n
            invariant
                i <= n,
                n == self.children@.len(),
                state@ == old(state)@ + self@.own_feed() + children::feed::<
                    Message,
                    R,
                    Element<'a, Message, R>,
                >(self.children@, i as int),
            decreases n - i,
        {
            let ghost fed = state@;
            self.children[i].hash_layout(state);
            assert(state@ =~= old(state)@ + self@.own_feed() + children::feed::<
                Message,
                R,
                Element<'a, Message, R>,
            >(self.children@, i + 1));
            i += 1;
        }
    }

    fn overlay(&mut self, layout: Layout<'_>) -> (overlay: Option<overlay::Element<'_, Message, R>>) {
        let layouts = layout.children();
        assert(crate::layout::views(layouts@).len() == layouts@.len());
        assert forall|j: int| 0 <= j < layouts@.len() implies (#[trigger] self.children@[j]).accepts(
            layouts@[j]@.node.children,
        ) by {
            assert(crate::layout::views(layouts@)[j] == layouts@[j]@);
        }
        first_overlay(self.children.as_mut_slice(), layouts.as_slice())
    }
}

/// Cuts that never go back lie between the first and the last one.
proof fn lemma_cuts_bounded(cuts: Seq<int>, count: int, j: int)
    requires
        0 <= j <= count,
        cuts.len() == count + 1,
        forall|k: int| 0 <= k < count ==> cuts[k] <= #[trigger] cuts[k + 1],
    ensures
        cuts[0] <= cuts[j] <= cuts[count],
    decreases count,
{
    if j < count {
        lemma_cuts_bounded(cuts.drop_last(), count - 1, j);
        assert(cuts.drop_last()[j] == cuts[j]);
        assert(cuts.drop_last()[count - 1] == cuts[count - 1]);
        assert(cuts[count - 1] <= cuts[(count - 1) + 1]);
    } else if count > 0 {
        lemma_cuts_bounded(cuts.drop_last(), count - 1, 0);
        assert(cuts.drop_last()[count - 1] == cuts[count - 1]);
        assert(cuts[count - 1] <= cuts[(count - 1) + 1]);
    }
}

/// The overlay of the first child that has one.
fn first_overlay<'b, 'a, Message, R: Renderer>(
    children: &'b mut [Element<'a, Message, R>],
    layouts: &[Layout<'_>],
) -> (overlay: Option<overlay::Element<'b, Message, R>>)
    requires
        layouts@.len() == old(children)@.len(),
        forall|j: int|
            0 <= j < layouts@.len() ==> (#[trigger] old(children)@[j]).accepts(
                layouts@[j]@.node.children,
            ),
    ensures
        overlay.is_some() == children::overlaid::<Message, R, Element<'a, Message, R>>(
            old(children)@,
            crate::layout::views(layouts@),
        ),
        overlay matches Some(element) ==> element.shown() == children::shown::<
            Message,
            R,
            Element<'a, Message, R>,
        >(old(children)@, crate::layout::views(layouts@)),
    decreases old(children)@.len(),
{
    let ghost all = children@;
    let ghost places = crate::layout::views(layouts@);
    if children.len() == 0 {
        return None;
    }
    let (head, tail) = children.split_at_mut(1);
    let (place, rest) = layouts.split_at(1);
    let ghost later = crate::layout::views(rest@);
    proof {
        assert(tail@ =~= all.skip(1));
        assert(later =~= places.skip(1));
        assert(places[0] == layouts@[0]@);
        assert(place@[0] == layouts@[0]);
        assert(head@[0] == all[0]);
        assert forall|j: int| 0 <= j < rest@.len() implies (#[trigger] tail@[j]).accepts(
            rest@[j]@.node.children,
        ) by {
            assert(tail@[j] == all[j + 1]);
            assert(rest@[j] == layouts@[j + 1]);
        }
        if children::overlaid::<Message, R, Element<'a, Message, R>>(tail@, later) {
            let i = choose|i: int| 0 <= i < tail@.len() && #[trigger] tail@[i].has_overlay(later[i]);
            assert(tail@[i] == all[i + 1]);
            assert(later[i] == rest@[i]@);
            assert(rest@[i] == layouts@[i + 1]);
            assert(places[i + 1] == layouts@[i + 1]@);
            assert(<Element<'a, Message, R> as Widget<Message, R>>::has_overlay(
                &all[i + 1],
                places[i + 1],
            ));
        }
        if children::overlaid::<Message, R, Element<'a, Message, R>>(all, places) {
            let i = choose|i: int| 0 <= i < all.len() && #[trigger] all[i].has_overlay(places[i]);
            if i > 0 {
                assert(tail@[i - 1] == all[i]);
                assert(later[i - 1] == rest@[i - 1]@);
                assert(rest@[i - 1] == layouts@[i]);
                assert(places[i] == layouts@[i]@);
                assert(<Element<'a, Message, R> as Widget<Message, R>>::has_overlay(
                    &tail@[i - 1],
                    later[i - 1],
                ));
            }
        }
    }
    match head.first_mut() {
        Some(child) => {
            assert(*child == all[0]);
            assert(place@[0]@ == places[0]);
            match child.overlay(place[0]) {
                Some(found) => {
                    assert(<Element<'a, Message, R> as Widget<Message, R>>::has_overlay(
                        &all[0],
                        places[0],
                    ));
                    Some(found)
                },
                None => {
                    assert(!all[0].has_overlay(places[0]));
                    first_overlay(tail, rest)
                },
            }
        },
        None => None,
    }
}

} // verus!
