use ui_core::clipboard::{self, Clipboard};
use ui_core::element::{Element, Mapped};
use ui_core::event::{Event, Status};
use ui_core::layout::{Layout, Limits, Node};
use ui_core::mapper::Mapper;
use ui_core::mouse;
use ui_core::point::Point;
use ui_core::renderer::Null;
use ui_core::size::Size;
use ui_core::touch;
use ui_core::widget::{Checkbox, Container, Row, Widget};

fn roomy() -> Limits {
    Limits::new(Size::zero(), Size::new(1000, 1000))
}

fn press() -> Event {
    Event::Mouse(mouse::Event::ButtonPressed(mouse::Button::Left))
}

fn no_clipboard() -> Box<dyn Clipboard> {
    Box::new(clipboard::Null)
}

/// A checkbox that emits `number` whenever it is pressed.
fn button(number: u32) -> Element<'static, u32, Null> {
    Element::new(Box::new(Checkbox::new(false, String::new(), move |_: bool| number)))
}

/// The node of a checkbox with the given bounds.
fn slot(x: i32, y: i32, width: u32, height: u32) -> Node {
    let mut node = Node::with_children(
        Size::new(width, height),
        vec![Node::new(Size::zero()), Node::new(Size::zero())],
    );
    node.move_to(Point::new(x, y));
    node
}

fn offer(row: &mut Row<'static, u32, Null>, node: &Node, cursor: Point, messages: &mut Vec<u32>) -> Status {
    Widget::<u32, Null>::on_event(
        row,
        press(),
        Layout::new(node),
        cursor,
        &Null,
        &mut no_clipboard(),
        messages,
    )
}

#[test]
fn merge_is_captured_if_either_is() {
    assert_eq!(Status::Ignored.merge(Status::Ignored), Status::Ignored);
    assert_eq!(Status::Ignored.merge(Status::Captured), Status::Captured);
    assert_eq!(Status::Captured.merge(Status::Ignored), Status::Captured);
    assert_eq!(Status::Captured.merge(Status::Captured), Status::Captured);
}

#[test]
fn merge_is_associative_and_commutative() {
    let all = [Status::Ignored, Status::Captured];
    for a in all.iter() {
        for b in all.iter() {
            assert_eq!(a.merge(*b), b.merge(*a));
            for c in all.iter() {
                assert_eq!(a.merge(*b).merge(*c), a.merge(b.merge(*c)));
            }
        }
    }
}

#[test]
fn presses_are_left_button_and_finger() {
    assert!(press().is_press());
    assert!(Event::Touch(touch::Event::FingerPressed { id: touch::Finger(3), position: Point::new(0, 0) }).is_press());
    assert!(!Event::Mouse(mouse::Event::ButtonPressed(mouse::Button::Middle)).is_press());
    assert!(!Event::Mouse(mouse::Event::ButtonPressed(mouse::Button::Other(4))).is_press());
    assert!(!Event::Mouse(mouse::Event::ButtonReleased(mouse::Button::Left)).is_press());
}

#[test]
fn every_child_is_offered_the_event() {
    let mut row = Row::new().push(button(1)).push(button(2)).push(button(3));
    let node = Node::with_children(
        Size::new(100, 100),
        vec![slot(0, 0, 50, 50), slot(0, 0, 50, 50), slot(0, 0, 50, 50)],
    );
    let mut messages = vec![0];
    let status = offer(&mut row, &node, Point::new(10, 10), &mut messages);
    assert_eq!(status, Status::Captured);
    assert_eq!(messages, vec![0, 1, 2, 3]);
}

#[test]
fn a_captured_event_still_reaches_the_children_that_follow() {
    let mut row = Row::new().push(button(1)).push(button(2)).push(button(3));
    let node = Node::with_children(
        Size::new(100, 100),
        vec![slot(0, 0, 50, 50), slot(60, 0, 10, 10), slot(5, 5, 50, 50)],
    );
    let mut messages = Vec::new();
    assert_eq!(offer(&mut row, &node, Point::new(10, 10), &mut messages), Status::Captured);
    assert_eq!(messages, vec![1, 3]);
}

#[test]
fn a_row_of_ignoring_children_ignores() {
    let mut row = Row::new().push(button(1)).push(button(2));
    let node = Node::with_children(Size::new(100, 100), vec![slot(0, 0, 5, 5), slot(5, 0, 5, 5)]);
    let mut messages = Vec::new();
    assert_eq!(offer(&mut row, &node, Point::new(50, 50), &mut messages), Status::Ignored);
    assert!(messages.is_empty());
    let mut empty: Row<'static, u32, Null> = Row::new();
    let node = Node::new(Size::new(100, 100));
    assert_eq!(offer(&mut empty, &node, Point::new(0, 0), &mut messages), Status::Ignored);
    assert!(messages.is_empty());
}

#[test]
fn one_capturing_child_is_enough_wherever_it_stands() {
    for capturing in 0..3 {
        let place = |index: i32| if index == capturing { slot(0, 0, 50, 50) } else { slot(60, 60, 5, 5) };
        let mut row = Row::new().push(button(0)).push(button(1)).push(button(2));
        let node = Node::with_children(Size::new(100, 100), vec![place(0), place(1), place(2)]);
        let mut messages = Vec::new();
        assert_eq!(offer(&mut row, &node, Point::new(10, 10), &mut messages), Status::Captured);
        assert_eq!(messages, vec![capturing as u32]);
    }
}

#[test]
fn nested_rows_keep_the_order_of_their_children() {
    let inner: Row<'static, u32, Null> = Row::new().push(button(2)).push(button(3));
    let mut row = Row::new().push(button(1)).push(Element::new(Box::new(inner))).push(button(4));
    let node = Node::with_children(
        Size::new(100, 100),
        vec![
            slot(0, 0, 50, 50),
            Node::with_children(Size::new(50, 50), vec![slot(0, 0, 50, 50), slot(0, 0, 50, 50)]),
            slot(0, 0, 50, 50),
        ],
    );
    let mut messages = Vec::new();
    assert_eq!(offer(&mut row, &node, Point::new(10, 10), &mut messages), Status::Captured);
    assert_eq!(messages, vec![1, 2, 3, 4]);
}

#[test]
fn only_the_checkbox_under_the_cursor_toggles() {
    let first = Checkbox::new(false, String::from("a"), |b: bool| if b { 11 } else { 10 });
    let second = Checkbox::new(true, String::from("b"), |b: bool| if b { 21 } else { 20 });
    let mut row: Row<'static, u32, Null> = Row::new()
        .spacing(10)
        .push(Element::new(Box::new(first)))
        .push(Element::new(Box::new(second)));
    let node = Widget::<u32, Null>::layout(&row, &Null, &roomy());
    let mut messages = Vec::new();
    assert_eq!(offer(&mut row, &node, Point::new(5, 5), &mut messages), Status::Captured);
    assert_eq!(messages, vec![11]);
    assert_eq!(offer(&mut row, &node, Point::new(50, 5), &mut messages), Status::Captured);
    assert_eq!(messages, vec![11, 20]);
    assert_eq!(offer(&mut row, &node, Point::new(40, 5), &mut messages), Status::Ignored);
    assert_eq!(messages, vec![11, 20]);
}

#[test]
fn a_container_hands_the_event_to_its_content() {
    let mut container: Container<'static, u32, Null> = Container::new(button(5));
    let node = Widget::<u32, Null>::layout(&container, &Null, &roomy());
    let mut messages = Vec::new();
    let status = Widget::<u32, Null>::on_event(
        &mut container,
        press(),
        Layout::new(&node),
        Point::new(1, 1),
        &Null,
        &mut no_clipboard(),
        &mut messages,
    );
    assert_eq!(status, Status::Captured);
    assert_eq!(messages, vec![5]);
    assert!(Widget::<u32, Null>::overlay(&mut container, Layout::new(&node)).is_none());
}

#[test]
fn rows_without_overlays_have_none() {
    let mut row = Row::new().push(button(1)).push(button(2));
    let node = Widget::<u32, Null>::layout(&row, &Null, &roomy());
    assert!(Widget::<u32, Null>::overlay(&mut row, Layout::new(&node)).is_none());
    let mut empty: Row<'static, u32, Null> = Row::new();
    let node = Widget::<u32, Null>::layout(&empty, &Null, &roomy());
    assert!(Widget::<u32, Null>::overlay(&mut empty, Layout::new(&node)).is_none());
}

#[test]
fn mapper_applies_its_function() {
    let mapper = Mapper::new(|x: u32| x * 10 + 1);
    assert_eq!(mapper.apply(4), 41);
    let mut to = vec![String::from("kept")];
    let names = Mapper::new(|x: u32| x.to_string());
    names.apply_all(vec![3, 1, 2], &mut to);
    assert_eq!(to, vec!["kept", "3", "1", "2"]);
    names.apply_all(Vec::new(), &mut to);
    assert_eq!(to.len(), 4);
}

#[test]
fn a_mapped_element_emits_the_mapped_messages_in_order() {
    let row: Row<'static, u32, Null> = Row::new().push(button(1)).push(button(2));
    let mut mapped: Element<'static, String, Null> =
        Element::new(Box::new(row)).map(|message: u32| format!("<{}>", message));
    let node = Node::with_children(Size::new(100, 100), vec![slot(0, 0, 50, 50), slot(0, 0, 50, 50)]);
    let mut messages = vec![String::from("before")];
    let status = mapped.on_event(
        press(),
        Layout::new(&node),
        Point::new(10, 10),
        &Null,
        &mut no_clipboard(),
        &mut messages,
    );
    assert_eq!(status, Status::Captured);
    assert_eq!(messages, vec!["before", "<1>", "<2>"]);
    let status = mapped.on_event(
        press(),
        Layout::new(&node),
        Point::new(90, 90),
        &Null,
        &mut no_clipboard(),
        &mut messages,
    );
    assert_eq!(status, Status::Ignored);
    assert_eq!(messages.len(), 3);
}

#[test]
fn a_mapped_widget_lays_out_as_the_widget_inside() {
    let row: Row<'static, u32, Null> = Row::new().spacing(3).push(button(1)).push(button(2));
    let plain = Widget::<u32, Null>::layout(&row, &Null, &roomy());
    let mut mapped = Mapped::new(Element::new(Box::new(row)), |message: u32| message as u64 + 1);
    let node = Widget::<u64, Null>::layout(&mapped, &Null, &roomy());
    assert_eq!(node.size(), plain.size());
    assert_eq!(node.children().len(), 2);
    assert_eq!(Widget::<u64, Null>::width(&mapped), ui_core::length::Length::Shrink);
    assert_eq!(Widget::<u64, Null>::height(&mapped), ui_core::length::Length::Shrink);
    let mut messages = Vec::new();
    let status = Widget::<u64, Null>::on_event(
        &mut mapped,
        press(),
        Layout::new(&node),
        Point::new(1, 1),
        &Null,
        &mut no_clipboard(),
        &mut messages,
    );
    assert_eq!(status, Status::Captured);
    assert_eq!(messages, vec![2u64]);
    assert!(Widget::<u64, Null>::overlay(&mut mapped, Layout::new(&node)).is_none());
}
