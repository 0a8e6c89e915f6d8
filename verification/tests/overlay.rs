use ui_core::clipboard::{self, Clipboard};
use ui_core::event::{Event, Status};
use ui_core::hasher::Hasher;
use ui_core::layout::Layout;
use ui_core::mouse;
use ui_core::overlay::element::Mapped;
use ui_core::overlay::{Element, Overlay, Panel};
use ui_core::point::Point;
use ui_core::rectangle::Rectangle;
use ui_core::renderer::{Color, Defaults, Null, Primitive, Style};
use ui_core::size::Size;
use ui_core::vector::Vector;

fn press() -> Event {
    Event::Mouse(mouse::Event::ButtonPressed(mouse::Button::Left))
}

fn no_clipboard() -> Box<dyn Clipboard> {
    Box::new(clipboard::Null)
}

fn defaults() -> Defaults {
    Defaults { text_color: Color { r: 0, g: 0, b: 0, a: 255 } }
}

/// A panel of 30 by 20 that tells the sum of the coordinates of a press.
fn panel() -> Box<dyn Overlay<i32, Null>> {
    Box::new(Panel::new(Size::new(30, 20), |at: Point| at.x + at.y))
}

#[test]
fn an_element_lays_its_overlay_out_at_its_anchor() {
    let element = Element::new(Point::new(10, 15), panel());
    assert_eq!(element.position(), Point::new(10, 15));
    let node = element.layout(&Null, Size::new(100, 100));
    assert_eq!(node.bounds(), Rectangle { x: 10, y: 15, width: 30, height: 20 });
}

#[test]
fn an_overlay_keeps_inside_the_viewport() {
    let viewport = Size::new(100, 50);
    let anchors = [
        (Point::new(90, 45), Rectangle { x: 70, y: 30, width: 30, height: 20 }),
        (Point::new(-5, -5), Rectangle { x: 0, y: 0, width: 30, height: 20 }),
        (Point::new(i32::MAX, i32::MIN), Rectangle { x: 70, y: 0, width: 30, height: 20 }),
        (Point::new(70, 30), Rectangle { x: 70, y: 30, width: 30, height: 20 }),
    ];
    for (anchor, expected) in anchors.iter() {
        let node = Element::new(*anchor, panel()).layout(&Null, viewport);
        assert_eq!(node.bounds(), *expected);
    }
    let small = Element::new(Point::new(3, 3), panel()).layout(&Null, Size::new(10, 5));
    assert_eq!(small.bounds(), Rectangle { x: 0, y: 0, width: 10, height: 5 });
    let none = Element::new(Point::new(3, 3), panel()).layout(&Null, Size::zero());
    assert_eq!(none.bounds(), Rectangle { x: 0, y: 0, width: 0, height: 0 });
}

#[test]
fn translate_moves_the_anchor() {
    let element = Element::new(Point::new(10, 15), panel()).translate(Vector::new(5, -20));
    assert_eq!(element.position(), Point::new(15, -5));
    let node = element.layout(&Null, Size::new(100, 100));
    assert_eq!(node.bounds(), Rectangle { x: 15, y: 0, width: 30, height: 20 });
    let twice = element.translate(Vector::new(1, 1)).translate(Vector::new(2, 2));
    assert_eq!(twice.position(), Point::new(18, -2));
    let far = Element::new(Point::new(i32::MAX, 0), panel()).translate(Vector::new(1, 0));
    assert_eq!(far.position(), Point::new(i32::MAX, 0));
}

#[test]
fn an_element_hands_events_to_its_overlay() {
    let mut element = Element::new(Point::new(10, 15), panel());
    let node = element.layout(&Null, Size::new(100, 100));
    let mut messages = vec![-1];
    let status = element.on_event(
        press(),
        Layout::new(&node),
        Point::new(12, 20),
        &Null,
        &mut no_clipboard(),
        &mut messages,
    );
    assert_eq!(status, Status::Captured);
    assert_eq!(messages, vec![-1, 32]);
    let status = element.on_event(
        press(),
        Layout::new(&node),
        Point::new(9, 20),
        &Null,
        &mut no_clipboard(),
        &mut messages,
    );
    assert_eq!(status, Status::Ignored);
    let moved = Event::Mouse(mouse::Event::CursorMoved { position: Point::new(12, 20) });
    let status = element.on_event(
        moved,
        Layout::new(&node),
        Point::new(12, 20),
        &Null,
        &mut no_clipboard(),
        &mut messages,
    );
    assert_eq!(status, Status::Ignored);
    assert_eq!(messages, vec![-1, 32]);
    assert_eq!(element.position(), Point::new(10, 15));
}

#[test]
fn a_mapped_overlay_emits_the_mapped_message() {
    let mut element = Element::new(Point::new(10, 15), panel()).map(|sum: i32| format!("sum {}", sum));
    assert_eq!(element.position(), Point::new(10, 15));
    let node = element.layout(&Null, Size::new(100, 100));
    assert_eq!(node.bounds(), Rectangle { x: 10, y: 15, width: 30, height: 20 });
    let mut messages = vec![String::from("first")];
    let status = element.on_event(
        press(),
        Layout::new(&node),
        Point::new(12, 20),
        &Null,
        &mut no_clipboard(),
        &mut messages,
    );
    assert_eq!(status, Status::Captured);
    assert_eq!(messages, vec!["first", "sum 32"]);
    let status = element.on_event(
        press(),
        Layout::new(&node),
        Point::new(0, 0),
        &Null,
        &mut no_clipboard(),
        &mut messages,
    );
    assert_eq!(status, Status::Ignored);
    assert_eq!(messages.len(), 2);
}

#[test]
fn a_mapped_overlay_is_laid_out_drawn_and_fed_as_the_overlay_inside() {
    let plain = Element::new(Point::new(10, 15), panel());
    let mapped: Mapped<'static, i32, i64, Null, _> =
        Mapped::new(Element::new(Point::new(1, 1), panel()), |sum: i32| sum as i64 * 2);
    let viewport = Size::new(100, 100);
    let node = Overlay::<i64, Null>::layout(&mapped, &Null, viewport, Point::new(10, 15));
    assert_eq!(node.bounds(), plain.layout(&Null, viewport).bounds());
    let drawn = Overlay::<i64, Null>::draw(&mapped, &Null, &defaults(), Layout::new(&node), Point::new(0, 0));
    assert_eq!(drawn.len(), 1);
    let mut one = Hasher::new();
    Overlay::<i64, Null>::hash_layout(&mapped, &mut one, Point::new(10, 15));
    let mut other = Hasher::new();
    plain.hash_layout(&mut other);
    assert_eq!(one.finish(), other.finish());
}

#[test]
fn an_element_draws_its_overlay() {
    let element: Element<'static, i32, Null> = Element::new(
        Point::new(10, 15),
        Box::new(Panel::new(Size::new(30, 20), |at: Point| at.x).style(Style(9))),
    );
    let node = element.layout(&Null, Size::new(100, 100));
    let primitives = element.draw(&Null, &defaults(), Layout::new(&node), Point::new(0, 0));
    assert_eq!(primitives.len(), 1);
    assert!(matches!(
        primitives[0],
        Primitive::Container { bounds: Rectangle { x: 10, y: 15, width: 30, height: 20 }, style: Style(9) }
    ));
}

#[test]
fn the_fingerprint_of_an_overlay_depends_on_its_anchor() {
    let fingerprint = |element: &Element<'static, i32, Null>| {
        let mut state = Hasher::new();
        element.hash_layout(&mut state);
        state.finish()
    };
    let here = Element::new(Point::new(10, 15), panel());
    let same = Element::new(Point::new(10, 15), panel());
    let there = Element::new(Point::new(10, 16), panel());
    assert_eq!(fingerprint(&here), fingerprint(&same));
    assert_ne!(fingerprint(&here), fingerprint(&there));
    let moved = there.translate(Vector::new(0, -1));
    assert_eq!(fingerprint(&here), fingerprint(&moved));
}
