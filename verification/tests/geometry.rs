use ui_core::alignment::{Alignment, Horizontal, Vertical};
use ui_core::layout::{Layout, Node};
use ui_core::length::Length;
use ui_core::padding::Padding;
use ui_core::point::Point;
use ui_core::rectangle::Rectangle;
use ui_core::renderer::Font;
use ui_core::size::Size;
use ui_core::units;
use ui_core::vector::Vector;

#[test]
fn point_offset_adds_components() {
    let moved = Point::new(3, -4).offset(Vector::new(10, 20));
    assert_eq!(moved, Point::new(13, 16));
    assert_eq!(Point::origin(), Point::new(0, 0));
}

#[test]
fn point_offset_stays_at_the_ends_of_the_range() {
    let far = Point::new(i32::MAX, i32::MIN).offset(Vector::new(5, -5));
    assert_eq!(far, Point::new(i32::MAX, i32::MIN));
}

#[test]
fn rectangle_contains_left_and_top_edges_only() {
    let rectangle = Rectangle::new(Point::new(10, 20), Size::new(30, 40));
    assert!(rectangle.contains(Point::new(10, 20)));
    assert!(rectangle.contains(Point::new(39, 59)));
    assert!(!rectangle.contains(Point::new(40, 20)));
    assert!(!rectangle.contains(Point::new(10, 60)));
    assert!(!rectangle.contains(Point::new(9, 20)));
    assert_eq!(rectangle.position(), Point::new(10, 20));
    assert_eq!(rectangle.size(), Size::new(30, 40));
}

#[test]
fn rectangle_at_the_end_of_the_range_contains_its_points() {
    let rectangle = Rectangle::new(Point::new(i32::MAX - 1, 0), Size::new(u32::MAX, 1));
    assert!(rectangle.contains(Point::new(i32::MAX, 0)));
}

#[test]
fn size_pad_adds_both_sides() {
    let padding = Padding { top: 1, right: 2, bottom: 3, left: 4 };
    assert_eq!(Size::new(10, 20).pad(padding), Size::new(16, 24));
    assert_eq!(Size::zero().pad(Padding::new(5)), Size::new(10, 10));
    assert_eq!(Size::new(u32::MAX, 0).pad(Padding::new(1)), Size::new(u32::MAX, 2));
}

#[test]
fn padding_sums_do_not_wrap() {
    let padding = Padding::new(u16::MAX);
    assert_eq!(padding.horizontal(), 131070);
    assert_eq!(padding.vertical(), 131070);
    assert_eq!(Padding::zero(), Padding::new(0));
}

#[test]
fn length_fill_factors() {
    assert_eq!(Length::Fill.fill_factor(), 1);
    assert_eq!(Length::FillPortion(7).fill_factor(), 7);
    assert_eq!(Length::Shrink.fill_factor(), 0);
    assert_eq!(Length::Units(9).fill_factor(), 0);
}

#[test]
fn length_codes_differ() {
    let lengths = [
        Length::Fill,
        Length::FillPortion(0),
        Length::FillPortion(1),
        Length::Shrink,
        Length::Units(0),
        Length::Units(1),
    ];
    for (i, a) in lengths.iter().enumerate() {
        for (j, b) in lengths.iter().enumerate() {
            assert_eq!(a.code() == b.code(), i == j);
        }
    }
}

#[test]
fn alignment_of_sides() {
    assert_eq!(Alignment::horizontal(Horizontal::Left), Alignment::Start);
    assert_eq!(Alignment::horizontal(Horizontal::Center), Alignment::Center);
    assert_eq!(Alignment::horizontal(Horizontal::Right), Alignment::End);
    assert_eq!(Alignment::vertical(Vertical::Top), Alignment::Start);
    assert_eq!(Alignment::vertical(Vertical::Center), Alignment::Center);
    assert_eq!(Alignment::vertical(Vertical::Bottom), Alignment::End);
}

#[test]
fn alignment_codes_differ() {
    let alignments = [Alignment::Start, Alignment::Center, Alignment::End, Alignment::Fill];
    for (i, a) in alignments.iter().enumerate() {
        for (j, b) in alignments.iter().enumerate() {
            assert_eq!(a.code() == b.code(), i == j);
        }
    }
}

#[test]
fn font_codes_differ() {
    let fonts = [Font::Default, Font::External(0), Font::External(1), Font::External(u32::MAX)];
    for (i, a) in fonts.iter().enumerate() {
        for (j, b) in fonts.iter().enumerate() {
            assert_eq!(a.code() == b.code(), i == j);
        }
    }
    assert_eq!(Font::Default.code(), 0);
    assert_eq!(Font::External(u32::MAX).code(), 1 << 32);
}

#[test]
fn rectangle_with_size_starts_at_the_origin() {
    assert_eq!(Rectangle::with_size(Size::new(3, 4)), Rectangle { x: 0, y: 0, width: 3, height: 4 });
}

#[test]
fn moving_twice_is_moving_by_the_sum() {
    let point = Point::new(10, -10);
    let twice = point.offset(Vector::new(5, 6)).offset(Vector::new(-7, 8));
    assert_eq!(twice, point.offset(Vector::new(-2, 14)));
}

#[test]
fn clamping_helpers() {
    assert_eq!(units::coord(i64::MAX), i32::MAX);
    assert_eq!(units::coord(i64::MIN), i32::MIN);
    assert_eq!(units::coord(-7), -7);
    assert_eq!(units::len(u128::MAX), u32::MAX);
    assert_eq!(units::len(12), 12);
    assert_eq!(units::min(3, 4), 3);
    assert_eq!(units::max(3, 4), 4);
}

#[test]
fn node_moves_and_aligns() {
    let mut node = Node::new(Size::new(10, 20));
    assert_eq!(node.bounds(), Rectangle { x: 0, y: 0, width: 10, height: 20 });
    node.move_to(Point::new(5, 6));
    assert_eq!(node.bounds(), Rectangle { x: 5, y: 6, width: 10, height: 20 });
    node.align(Alignment::Center, Alignment::End, Size::new(30, 50));
    assert_eq!(node.bounds(), Rectangle { x: 15, y: 36, width: 10, height: 20 });
    node.align(Alignment::Fill, Alignment::Start, Size::new(30, 50));
    assert_eq!(node.bounds(), Rectangle { x: 15, y: 36, width: 30, height: 20 });
}

#[test]
fn node_aligned_in_less_space_moves_back() {
    let mut node = Node::new(Size::new(10, 10));
    node.align(Alignment::Center, Alignment::End, Size::new(3, 4));
    assert_eq!(node.bounds(), Rectangle { x: -3, y: -6, width: 10, height: 10 });
    node.align(Alignment::Fill, Alignment::Fill, Size::new(3, 4));
    assert_eq!(node.size(), Size::new(10, 10));
}

#[test]
fn layout_children_are_positioned_relative_to_the_parent() {
    let mut first = Node::new(Size::new(10, 10));
    first.move_to(Point::new(1, 2));
    let mut second = Node::new(Size::new(20, 20));
    second.move_to(Point::new(11, 2));
    let mut parent = Node::with_children(Size::new(40, 30), vec![first, second]);
    parent.move_to(Point::new(100, 200));
    let layout = Layout::new(&parent);
    assert_eq!(layout.position(), Point::new(100, 200));
    assert_eq!(layout.bounds(), Rectangle { x: 100, y: 200, width: 40, height: 30 });
    let children = layout.children();
    assert_eq!(children.len(), 2);
    assert_eq!(children[0].bounds(), Rectangle { x: 101, y: 202, width: 10, height: 10 });
    assert_eq!(children[1].bounds(), Rectangle { x: 111, y: 202, width: 20, height: 20 });
    assert_eq!(children[1].children().len(), 0);
    let shifted = Layout::with_offset(Vector::new(-100, -200), &parent);
    assert_eq!(shifted.position(), Point::new(0, 0));
}
