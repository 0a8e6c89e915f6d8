use ui_core::alignment::{Horizontal, Vertical};
use ui_core::clipboard::{self, Clipboard};
use ui_core::element::Element;
use ui_core::event::{Event, Status};
use ui_core::layout::{Layout, Limits, Node};
use ui_core::length::Length;
use ui_core::mouse;
use ui_core::padding::Padding;
use ui_core::point::Point;
use ui_core::rectangle::Rectangle;
use ui_core::renderer::{Color, Defaults, Font, Monospace, Null, Primitive, Renderer, Style};
use ui_core::size::Size;
use ui_core::touch;
use ui_core::widget::{Checkbox, Container, ProgressBar, Row, Space, Text, Widget};

/// Eight units for each byte of text, sixteen units high unless a size is set.
const MONO: Monospace = Monospace { advance: 8, default_size: 16 };

fn roomy() -> Limits {
    Limits::new(Size::zero(), Size::new(1000, 1000))
}

fn defaults() -> Defaults {
    Defaults { text_color: Color { r: 1, g: 2, b: 3, a: 255 } }
}

fn viewport() -> Rectangle {
    Rectangle { x: 0, y: 0, width: 1000, height: 1000 }
}

fn press() -> Event {
    Event::Mouse(mouse::Event::ButtonPressed(mouse::Button::Left))
}

fn no_clipboard() -> Box<dyn Clipboard> {
    Box::new(clipboard::Null)
}

fn within(limits: &Limits, size: Size) -> bool {
    limits.min().width <= size.width
        && size.width <= limits.max().width
        && limits.min().height <= size.height
        && size.height <= limits.max().height
}

#[test]
fn space_takes_what_its_policies_say() {
    let limits = Limits::new(Size::zero(), Size::new(100, 50));
    let lay = |space: Space| Widget::<u32, Null>::layout(&space, &Null, &limits).size();
    assert_eq!(lay(Space::new(Length::Units(10), Length::Units(20))), Size::new(10, 20));
    assert_eq!(lay(Space::new(Length::Fill, Length::Shrink)), Size::new(100, 0));
    assert_eq!(lay(Space::with_width(Length::Units(7))), Size::new(7, 0));
    assert_eq!(lay(Space::with_height(Length::Fill)), Size::new(0, 50));
    assert_eq!(lay(Space::new(Length::Units(500), Length::Units(500))), Size::new(100, 50));
    let space = Space::new(Length::Fill, Length::Units(3));
    assert_eq!(Widget::<u32, Null>::width(&space), Length::Fill);
    assert_eq!(Widget::<u32, Null>::height(&space), Length::Units(3));
}

#[test]
fn space_draws_its_bounds_and_ignores_events() {
    let mut space = Space::new(Length::Units(10), Length::Units(20));
    let mut node = Widget::<u32, Null>::layout(&space, &Null, &roomy());
    node.move_to(Point::new(3, 4));
    let primitives = Widget::<u32, Null>::draw(
        &space,
        &Null,
        &defaults(),
        Layout::new(&node),
        Point::new(0, 0),
        &viewport(),
    );
    assert_eq!(primitives.len(), 1);
    assert!(matches!(
        primitives[0],
        Primitive::Space { bounds: Rectangle { x: 3, y: 4, width: 10, height: 20 } }
    ));
    let mut messages: Vec<u32> = vec![9];
    let status = Widget::<u32, Null>::on_event(
        &mut space,
        press(),
        Layout::new(&node),
        Point::new(5, 5),
        &Null,
        &mut no_clipboard(),
        &mut messages,
    );
    assert_eq!(status, Status::Ignored);
    assert_eq!(messages, vec![9]);
    assert!(Widget::<u32, Null>::overlay(&mut space, Layout::new(&node)).is_none());
}

#[test]
fn every_widget_keeps_within_its_limits() {
    let windows = [
        Limits::none(),
        Limits::new(Size::zero(), Size::zero()),
        Limits::new(Size::new(10, 10), Size::new(20, 20)),
        Limits::new(Size::new(300, 5), Size::new(400, 6)),
        Limits::new(Size::zero(), Size::new(3, 1000)),
    ];
    let lengths = [Length::Shrink, Length::Fill, Length::FillPortion(3), Length::Units(15), Length::Units(999)];
    for limits in windows.iter() {
        for width in lengths.iter() {
            for height in lengths.iter() {
                let space = Space::new(*width, *height);
                assert!(within(limits, Widget::<u32, Monospace>::layout(&space, &MONO, limits).size()));
                let bar = ProgressBar::new(0, 100, 50).width(*width).height(*height);
                assert!(within(limits, Widget::<u32, Monospace>::layout(&bar, &MONO, limits).size()));
                let text = Text::new(String::from("some text")).width(*width).height(*height);
                assert!(within(limits, Widget::<u32, Monospace>::layout(&text, &MONO, limits).size()));
                let checkbox = Checkbox::new(true, String::from("check"), |b: bool| b as u32).width(*width);
                assert!(within(limits, Widget::<u32, Monospace>::layout(&checkbox, &MONO, limits).size()));
                let row: Row<'static, u32, Monospace> = Row::new()
                    .width(*width)
                    .height(*height)
                    .padding(Padding::new(4))
                    .spacing(3)
                    .push(Element::new(Box::new(Space::new(*height, *width))))
                    .push(Element::new(Box::new(Text::new(String::from("abc")))));
                assert!(within(limits, Widget::<u32, Monospace>::layout(&row, &MONO, limits).size()));
                let container: Container<'static, u32, Monospace> =
                    Container::new(Element::new(Box::new(Space::new(*height, *width))))
                        .width(*width)
                        .height(*height)
                        .padding(Padding::new(9));
                assert!(within(limits, Widget::<u32, Monospace>::layout(&container, &MONO, limits).size()));
            }
        }
    }
}

#[test]
fn progress_bar_fills_the_width_and_has_a_default_height() {
    let bar = ProgressBar::new(0, 100, 50);
    let limits = Limits::new(Size::zero(), Size::new(200, 100));
    assert_eq!(Widget::<u32, Null>::layout(&bar, &Null, &limits).size(), Size::new(200, 30));
    assert_eq!(Widget::<u32, Null>::width(&bar), Length::Fill);
    assert_eq!(Widget::<u32, Null>::height(&bar), Length::Units(30));
    let tall = ProgressBar::new(0, 100, 50).width(Length::Units(50)).height(Length::Units(8));
    assert_eq!(Widget::<u32, Null>::layout(&tall, &Null, &limits).size(), Size::new(50, 8));
    assert_eq!(Widget::<u32, Null>::height(&tall), Length::Units(8));
}

fn shown_value(bar: &ProgressBar) -> (i32, i32, i32, Style) {
    let node = Widget::<u32, Null>::layout(bar, &Null, &roomy());
    let primitives = Widget::<u32, Null>::draw(
        bar,
        &Null,
        &defaults(),
        Layout::new(&node),
        Point::new(0, 0),
        &viewport(),
    );
    assert_eq!(primitives.len(), 1);
    match &primitives[0] {
        Primitive::ProgressBar { start, end, value, style, bounds } => {
            assert_eq!(*bounds, node.bounds());
            (*start, *end, *value, *style)
        }
        _ => panic!("a progress bar draws a progress bar"),
    }
}

#[test]
fn progress_bar_brings_its_value_into_the_range() {
    assert_eq!(shown_value(&ProgressBar::new(0, 100, 50)), (0, 100, 50, Style(0)));
    assert_eq!(shown_value(&ProgressBar::new(0, 100, 150)), (0, 100, 100, Style(0)));
    assert_eq!(shown_value(&ProgressBar::new(0, 100, -5)), (0, 100, 0, Style(0)));
    assert_eq!(shown_value(&ProgressBar::new(-10, -5, 0)), (-10, -5, -5, Style(0)));
    assert_eq!(shown_value(&ProgressBar::new(10, 0, 5)), (10, 0, 0, Style(0)));
    assert_eq!(shown_value(&ProgressBar::new(0, 1, 1).style(Style(7))), (0, 1, 1, Style(7)));
}

#[test]
fn text_is_measured_by_the_renderer() {
    let text = Text::new(String::from("hello"));
    assert_eq!(Widget::<u32, Monospace>::layout(&text, &MONO, &roomy()).size(), Size::new(40, 16));
    let large = Text::new(String::from("hello")).size(30);
    assert_eq!(Widget::<u32, Monospace>::layout(&large, &MONO, &roomy()).size(), Size::new(40, 30));
    let narrow = Limits::new(Size::zero(), Size::new(25, 10));
    assert_eq!(Widget::<u32, Monospace>::layout(&large, &MONO, &narrow).size(), Size::new(25, 10));
    let filling = Text::new(String::from("hi")).width(Length::Fill).height(Length::Units(50));
    assert_eq!(Widget::<u32, Monospace>::layout(&filling, &MONO, &roomy()).size(), Size::new(1000, 50));
    assert_eq!(Widget::<u32, Null>::layout(&text, &Null, &roomy()).size(), Size::new(0, 20));
}

#[test]
fn text_draws_itself() {
    let text = Text::new(String::from("hello"))
        .color(Color { r: 9, g: 8, b: 7, a: 6 })
        .font(Font::External(2))
        .horizontal_alignment(Horizontal::Right)
        .vertical_alignment(Vertical::Bottom);
    let node = Widget::<u32, Monospace>::layout(&text, &MONO, &roomy());
    let primitives = Widget::<u32, Monospace>::draw(
        &text,
        &MONO,
        &defaults(),
        Layout::new(&node),
        Point::new(0, 0),
        &viewport(),
    );
    assert_eq!(primitives.len(), 1);
    match &primitives[0] {
        Primitive::Text { content, bounds, color, size, font, horizontal_alignment, vertical_alignment } => {
            assert_eq!(content, "hello");
            assert_eq!(*bounds, Rectangle { x: 0, y: 0, width: 40, height: 16 });
            assert_eq!(*color, Color { r: 9, g: 8, b: 7, a: 6 });
            assert_eq!(*size, 16);
            assert_eq!(*font, Font::External(2));
            assert_eq!(*horizontal_alignment, Horizontal::Right);
            assert_eq!(*vertical_alignment, Vertical::Bottom);
        }
        _ => panic!("a text draws a text"),
    }
    let plain = Text::new(String::from("x")).size(11);
    let primitives = Widget::<u32, Monospace>::draw(
        &plain,
        &MONO,
        &defaults(),
        Layout::new(&node),
        Point::new(0, 0),
        &viewport(),
    );
    match &primitives[0] {
        Primitive::Text { color, size, .. } => {
            assert_eq!(*color, defaults().text_color);
            assert_eq!(*size, 11);
        }
        _ => panic!("a text draws a text"),
    }
}

fn checkbox_node<F: Fn(bool) -> u32>(checkbox: &Checkbox<u32, F>) -> Node {
    Widget::<u32, Monospace>::layout(checkbox, &MONO, &roomy())
}

#[test]
fn checkbox_is_a_box_and_a_label_side_by_side() {
    let checkbox = Checkbox::new(false, String::from("Toggle"), |b: bool| b as u32);
    let node = checkbox_node(&checkbox);
    assert_eq!(node.size(), Size::new(20 + 15 + 48, 20));
    let children = node.children();
    assert_eq!(children.len(), 2);
    assert_eq!(children[0].bounds(), Rectangle { x: 0, y: 0, width: 20, height: 20 });
    assert_eq!(children[1].bounds(), Rectangle { x: 35, y: 2, width: 48, height: 16 });
    assert_eq!(Widget::<u32, Monospace>::height(&checkbox), Length::Shrink);
    assert_eq!(Widget::<u32, Monospace>::width(&checkbox), Length::Shrink);
}

#[test]
fn checkbox_settings_change_its_layout() {
    let checkbox = Checkbox::new(false, String::from("Toggle"), |b: bool| b as u32)
        .size(30)
        .spacing(5)
        .text_size(10)
        .font(Font::External(1));
    let node = checkbox_node(&checkbox);
    assert_eq!(node.size(), Size::new(30 + 5 + 48, 30));
    assert_eq!(node.children()[0].bounds(), Rectangle { x: 0, y: 0, width: 30, height: 30 });
    assert_eq!(node.children()[1].bounds(), Rectangle { x: 35, y: 10, width: 48, height: 10 });
    let wide = Checkbox::new(false, String::from("Toggle"), |b: bool| b as u32).width(Length::Fill);
    let node = Widget::<u32, Monospace>::layout(&wide, &MONO, &Limits::new(Size::zero(), Size::new(200, 100)));
    assert_eq!(node.size().width, 200);
    assert_eq!(node.children()[1].bounds().width, 165);
    assert_eq!(Widget::<u32, Monospace>::width(&wide), Length::Fill);
}

#[test]
fn checkbox_with_the_null_renderer() {
    let checkbox = Checkbox::new(false, String::from("Toggle"), |b: bool| b as u32);
    let node = Widget::<u32, Null>::layout(&checkbox, &Null, &roomy());
    assert_eq!(node.size(), Size::new(35, 20));
}

#[test]
fn checkbox_toggles_on_a_press_inside() {
    let mut checkbox = Checkbox::new(false, String::from("Toggle"), |b: bool| if b { 1 } else { 0 });
    let mut node = checkbox_node(&checkbox);
    node.move_to(Point::new(100, 100));
    let mut messages: Vec<u32> = vec![7];
    let status = Widget::<u32, Monospace>::on_event(
        &mut checkbox,
        press(),
        Layout::new(&node),
        Point::new(110, 110),
        &MONO,
        &mut no_clipboard(),
        &mut messages,
    );
    assert_eq!(status, Status::Captured);
    assert_eq!(messages, vec![7, 1]);
    let touch = Event::Touch(touch::Event::FingerPressed {
        id: touch::Finger(1),
        position: Point::new(110, 110),
    });
    let status = Widget::<u32, Monospace>::on_event(
        &mut checkbox,
        touch,
        Layout::new(&node),
        Point::new(182, 119),
        &MONO,
        &mut no_clipboard(),
        &mut messages,
    );
    assert_eq!(status, Status::Captured);
    assert_eq!(messages, vec![7, 1, 1]);
    let mut checked = Checkbox::new(true, String::from("Toggle"), |b: bool| if b { 1 } else { 0 });
    let status = Widget::<u32, Monospace>::on_event(
        &mut checked,
        press(),
        Layout::new(&node),
        Point::new(100, 100),
        &MONO,
        &mut no_clipboard(),
        &mut messages,
    );
    assert_eq!(status, Status::Captured);
    assert_eq!(messages, vec![7, 1, 1, 0]);
}

#[test]
fn checkbox_ignores_everything_else() {
    let mut checkbox = Checkbox::new(false, String::from("Toggle"), |b: bool| b as u32);
    let node = checkbox_node(&checkbox);
    let mut messages: Vec<u32> = Vec::new();
    let outside = [Point::new(83, 0), Point::new(0, 20), Point::new(-1, 0), Point::new(500, 500)];
    for cursor in outside.iter() {
        let status = Widget::<u32, Monospace>::on_event(
            &mut checkbox,
            press(),
            Layout::new(&node),
            *cursor,
            &MONO,
            &mut no_clipboard(),
            &mut messages,
        );
        assert_eq!(status, Status::Ignored);
    }
    let others = [
        Event::Mouse(mouse::Event::ButtonPressed(mouse::Button::Right)),
        Event::Mouse(mouse::Event::ButtonReleased(mouse::Button::Left)),
        Event::Mouse(mouse::Event::CursorMoved { position: Point::new(1, 1) }),
        Event::Mouse(mouse::Event::WheelScrolled { x: 0, y: 1 }),
        Event::Touch(touch::Event::FingerLifted { id: touch::Finger(1), position: Point::new(1, 1) }),
        Event::Touch(touch::Event::FingerMoved { id: touch::Finger(1), position: Point::new(1, 1) }),
        Event::Touch(touch::Event::FingerLost { id: touch::Finger(1), position: Point::new(1, 1) }),
        Event::Keyboard(ui_core::keyboard::Event::KeyPressed { key_code: ui_core::keyboard::KeyCode(13) }),
        Event::Keyboard(ui_core::keyboard::Event::KeyReleased { key_code: ui_core::keyboard::KeyCode(13) }),
        Event::Window(ui_core::window::Event::Resized { width: 10, height: 10 }),
    ];
    for event in others.iter() {
        let status = Widget::<u32, Monospace>::on_event(
            &mut checkbox,
            *event,
            Layout::new(&node),
            Point::new(1, 1),
            &MONO,
            &mut no_clipboard(),
            &mut messages,
        );
        assert_eq!(status, Status::Ignored);
    }
    assert!(messages.is_empty());
}

#[test]
fn checkbox_draws_its_box_and_its_label() {
    let checkbox = Checkbox::new(true, String::from("Toggle"), |b: bool| b as u32)
        .style(Style(3))
        .text_color(Color { r: 5, g: 5, b: 5, a: 5 });
    let node = checkbox_node(&checkbox);
    let primitives = Widget::<u32, Monospace>::draw(
        &checkbox,
        &MONO,
        &defaults(),
        Layout::new(&node),
        Point::new(50, 10),
        &viewport(),
    );
    assert_eq!(primitives.len(), 2);
    match &primitives[0] {
        Primitive::Checkbox { bounds, is_checked, is_mouse_over, style } => {
            assert_eq!(*bounds, Rectangle { x: 0, y: 0, width: 20, height: 20 });
            assert!(*is_checked);
            assert!(*is_mouse_over);
            assert_eq!(*style, Style(3));
        }
        _ => panic!("a checkbox draws its box first"),
    }
    match &primitives[1] {
        Primitive::Text { content, bounds, color, size, font, horizontal_alignment, vertical_alignment } => {
            assert_eq!(content, "Toggle");
            assert_eq!(*bounds, Rectangle { x: 35, y: 2, width: 48, height: 16 });
            assert_eq!(*color, Color { r: 5, g: 5, b: 5, a: 5 });
            assert_eq!(*size, 16);
            assert_eq!(*font, Font::Default);
            assert_eq!(*horizontal_alignment, Horizontal::Left);
            assert_eq!(*vertical_alignment, Vertical::Center);
        }
        _ => panic!("a checkbox draws its label second"),
    }
    let away = Widget::<u32, Monospace>::draw(
        &checkbox,
        &MONO,
        &defaults(),
        Layout::new(&node),
        Point::new(500, 10),
        &viewport(),
    );
    assert!(matches!(away[0], Primitive::Checkbox { is_mouse_over: false, .. }));
}

fn ten_by_ten() -> Element<'static, u32, Null> {
    Element::new(Box::new(Space::new(Length::Units(10), Length::Units(10))))
}

#[test]
fn container_hugs_its_content() {
    let container = Container::new(ten_by_ten()).padding(Padding::new(5));
    let node = Widget::<u32, Null>::layout(&container, &Null, &roomy());
    assert_eq!(node.size(), Size::new(20, 20));
    assert_eq!(node.children().len(), 1);
    assert_eq!(node.children()[0].bounds(), Rectangle { x: 5, y: 5, width: 10, height: 10 });
    assert_eq!(Widget::<u32, Null>::width(&container), Length::Shrink);
    assert_eq!(Widget::<u32, Null>::height(&container), Length::Shrink);
}

#[test]
fn container_aligns_its_content() {
    let place = |container: Container<'static, u32, Null>| {
        let node = Widget::<u32, Null>::layout(
            &container.padding(Padding::new(5)).width(Length::Units(50)).height(Length::Units(40)),
            &Null,
            &roomy(),
        );
        assert_eq!(node.size(), Size::new(50, 40));
        node.children()[0].bounds()
    };
    assert_eq!(place(Container::new(ten_by_ten())), Rectangle { x: 5, y: 5, width: 10, height: 10 });
    assert_eq!(
        place(Container::new(ten_by_ten()).center_x().center_y()),
        Rectangle { x: 20, y: 15, width: 10, height: 10 }
    );
    assert_eq!(
        place(Container::new(ten_by_ten()).align_x(Horizontal::Right).align_y(Vertical::Bottom)),
        Rectangle { x: 35, y: 25, width: 10, height: 10 }
    );
}

#[test]
fn container_bounds_apply() {
    let container = Container::new(ten_by_ten()).width(Length::Fill).height(Length::Fill).max_width(30).max_height(25);
    let node = Widget::<u32, Null>::layout(&container, &Null, &roomy());
    assert_eq!(node.size(), Size::new(30, 25));
}

#[test]
fn container_draws_its_background_then_its_content() {
    let container = Container::new(ten_by_ten()).padding(Padding::new(5)).style(Style(4));
    let node = Widget::<u32, Null>::layout(&container, &Null, &roomy());
    let primitives = Widget::<u32, Null>::draw(
        &container,
        &Null,
        &defaults(),
        Layout::new(&node),
        Point::new(0, 0),
        &viewport(),
    );
    assert_eq!(primitives.len(), 2);
    assert!(matches!(
        primitives[0],
        Primitive::Container { bounds: Rectangle { x: 0, y: 0, width: 20, height: 20 }, style: Style(4) }
    ));
    assert!(matches!(
        primitives[1],
        Primitive::Space { bounds: Rectangle { x: 5, y: 5, width: 10, height: 10 } }
    ));
}

#[test]
fn row_draws_its_children_in_order() {
    let row: Row<'static, u32, Null> = Row::with_children(vec![ten_by_ten(), ten_by_ten()]).spacing(2);
    let mut node = Widget::<u32, Null>::layout(&row, &Null, &roomy());
    node.move_to(Point::new(100, 0));
    let primitives = Widget::<u32, Null>::draw(
        &row,
        &Null,
        &defaults(),
        Layout::new(&node),
        Point::new(0, 0),
        &viewport(),
    );
    assert_eq!(primitives.len(), 2);
    assert!(matches!(primitives[0], Primitive::Space { bounds: Rectangle { x: 100, .. } }));
    assert!(matches!(primitives[1], Primitive::Space { bounds: Rectangle { x: 112, .. } }));
}

#[test]
fn element_does_what_its_widget_does() {
    let mut element: Element<'static, u32, Null> =
        Element::new(Box::new(Space::new(Length::Units(10), Length::Fill)));
    assert_eq!(element.width(), Length::Units(10));
    assert_eq!(element.height(), Length::Fill);
    let limits = Limits::new(Size::zero(), Size::new(50, 60));
    let node = element.layout(&Null, &limits);
    assert_eq!(node.size(), Size::new(10, 60));
    let primitives = element.draw(&Null, &defaults(), Layout::new(&node), Point::new(0, 0), &viewport());
    assert_eq!(primitives.len(), 1);
    let mut messages = Vec::new();
    let status = element.on_event(
        press(),
        Layout::new(&node),
        Point::new(0, 0),
        &Null,
        &mut no_clipboard(),
        &mut messages,
    );
    assert_eq!(status, Status::Ignored);
    assert!(messages.is_empty());
    assert!(element.overlay(Layout::new(&node)).is_none());
    assert_eq!(Widget::<u32, Null>::layout(&element, &Null, &limits).size(), Size::new(10, 60));
}

#[test]
fn monospace_renderer_measures_bytes() {
    assert_eq!(MONO.default_size(), 16);
    assert_eq!(MONO.measure("abc", 5, Font::Default, Size::new(100, 100)), Size::new(24, 5));
    assert_eq!(MONO.measure("abc", 5, Font::Default, Size::new(20, 1)), Size::new(20, 5));
    assert_eq!(MONO.measure("", 5, Font::Default, Size::new(20, 1)), Size::new(0, 5));
    assert_eq!(MONO.measure("\u{e9}", 5, Font::Default, Size::new(100, 1)), Size::new(16, 5));
}

#[test]
fn null_renderer_and_clipboard() {
    assert_eq!(Null.default_size(), 20);
    assert_eq!(Null.measure("anything", 5, Font::Default, Size::new(1, 1)), Size::new(0, 20));
    let mut clipboard = clipboard::Null;
    clipboard.write(String::from("kept nowhere"));
    assert_eq!(clipboard.read(), None);
}
