use ui_core::alignment::{Alignment, Horizontal, Vertical};
use ui_core::element::Element;
use ui_core::hasher::Hasher;
use ui_core::layout::Limits;
use ui_core::length::Length;
use ui_core::padding::Padding;
use ui_core::renderer::{Color, Font, Null, Style};
use ui_core::size::Size;
use ui_core::widget::checkbox::Part;
use ui_core::widget::{Checkbox, Container, ProgressBar, Row, Space, Text, Widget};

fn fingerprint<W: Widget<u32, Null>>(widget: &W) -> u64 {
    let mut state = Hasher::new();
    widget.hash_layout(&mut state);
    let print = state.finish();
    assert_eq!(print, ui_core::widget::fingerprint::<u32, Null, W>(widget));
    print
}

fn checkbox(is_checked: bool, label: &str) -> Checkbox<u32, fn(bool) -> u32> {
    fn message(state: bool) -> u32 {
        state as u32
    }
    Checkbox::new(is_checked, String::from(label), message as fn(bool) -> u32)
}

fn space(width: u16) -> Element<'static, u32, Null> {
    Element::new(Box::new(Space::new(Length::Units(width), Length::Shrink)))
}

#[test]
fn hasher_depends_on_what_is_fed_and_in_which_order() {
    let finish = |feed: &dyn Fn(&mut Hasher)| {
        let mut state = Hasher::new();
        feed(&mut state);
        state.finish()
    };
    let one_two = finish(&|state| {
        state.feed_u64(1);
        state.feed_u64(2);
    });
    let again = finish(&|state| {
        state.feed_u64(1);
        state.feed_u64(2);
    });
    let two_one = finish(&|state| {
        state.feed_u64(2);
        state.feed_u64(1);
    });
    assert_eq!(one_two, again);
    assert_ne!(one_two, two_one);
    assert_ne!(finish(&|state| state.feed_str("ab")), finish(&|state| state.feed_str("ba")));
    assert_eq!(finish(&|state| state.feed_str("ab")), finish(&|state| state.write(b"ab")));
    assert_eq!(finish(&|state| state.feed_u64(0x0102)), finish(&|state| state.write(&[2, 1, 0, 0, 0, 0, 0, 0])));
    assert_ne!(finish(&|_| {}), finish(&|state| state.feed_u64(0)));
}

#[test]
fn equal_widgets_have_equal_fingerprints() {
    assert_eq!(
        fingerprint(&Space::new(Length::Fill, Length::Units(3))),
        fingerprint(&Space::new(Length::Fill, Length::Units(3)))
    );
    assert_eq!(fingerprint(&checkbox(true, "label")), fingerprint(&checkbox(true, "label")));
    assert_eq!(fingerprint(&ProgressBar::new(0, 10, 5)), fingerprint(&ProgressBar::new(0, 10, 5)));
    assert_eq!(
        fingerprint(&Text::new(String::from("text")).size(3)),
        fingerprint(&Text::new(String::from("text")).size(3))
    );
    let row = || Row::new().spacing(3).padding(Padding::new(2)).push(space(1)).push(space(2));
    assert_eq!(fingerprint(&row()), fingerprint(&row()));
    let container = || Container::new(space(1)).padding(Padding::new(2)).max_width(7);
    assert_eq!(fingerprint(&container()), fingerprint(&container()));
}

#[test]
fn a_change_of_the_label_changes_the_fingerprint_of_a_checkbox() {
    assert_ne!(fingerprint(&checkbox(true, "label")), fingerprint(&checkbox(true, "Label")));
    assert_ne!(fingerprint(&checkbox(true, "label")), fingerprint(&checkbox(true, "")));
}

#[test]
fn what_is_only_drawn_does_not_change_the_fingerprint_of_a_checkbox() {
    let plain = fingerprint(&checkbox(false, "label"));
    assert_eq!(plain, fingerprint(&checkbox(true, "label")));
    assert_eq!(plain, fingerprint(&checkbox(false, "label").text_color(Color { r: 1, g: 2, b: 3, a: 4 })));
    assert_eq!(plain, fingerprint(&checkbox(false, "label").style(Style(5))));
}

#[test]
fn every_layout_field_of_a_checkbox_changes_its_fingerprint() {
    let plain = fingerprint(&checkbox(false, "label"));
    assert_ne!(plain, fingerprint(&checkbox(false, "label").size(21)));
    assert_ne!(plain, fingerprint(&checkbox(false, "label").spacing(14)));
    assert_ne!(plain, fingerprint(&checkbox(false, "label").width(Length::Fill)));
    assert_ne!(plain, fingerprint(&checkbox(false, "label").width(Length::Units(20))));
    assert_ne!(plain, fingerprint(&checkbox(false, "label").text_size(20)));
    assert_ne!(plain, fingerprint(&checkbox(false, "label").font(Font::External(0))));
    assert_ne!(
        fingerprint(&checkbox(false, "label").text_size(20)),
        fingerprint(&checkbox(false, "label").text_size(21))
    );
    assert_ne!(
        fingerprint(&checkbox(false, "label").size(15).spacing(20)),
        fingerprint(&checkbox(false, "label").size(20).spacing(15))
    );
    assert_eq!(
        fingerprint(&checkbox(true, "label").size(15).spacing(20).text_size(3)),
        fingerprint(&checkbox(false, "label").size(15).spacing(20).text_size(3).style(Style(2)))
    );
}

#[test]
fn the_parts_of_a_checkbox_feed_what_their_layout_depends_on() {
    let print = |part: &Part<'_>| {
        let mut state = Hasher::new();
        Widget::<(), Null>::hash_layout(part, &mut state);
        state.finish()
    };
    let text = String::from("label");
    let other = String::from("Label");
    let again = String::from("label");
    let label = |content, size, font, width| Part::Label { content, size, font, width };
    let plain = print(&label(&text, None, Font::Default, Length::Shrink));
    assert_eq!(plain, print(&label(&again, None, Font::Default, Length::Shrink)));
    assert_ne!(plain, print(&label(&other, None, Font::Default, Length::Shrink)));
    assert_ne!(plain, print(&label(&text, Some(20), Font::Default, Length::Shrink)));
    assert_ne!(plain, print(&label(&text, None, Font::External(0), Length::Shrink)));
    assert_ne!(plain, print(&label(&text, None, Font::Default, Length::Fill)));
    assert_eq!(print(&Part::Mark { size: 20 }), print(&Part::Mark { size: 20 }));
    assert_ne!(print(&Part::Mark { size: 20 }), print(&Part::Mark { size: 21 }));
    assert_ne!(print(&Part::Mark { size: 20 }), plain);
}

#[test]
fn every_field_of_a_space_changes_its_fingerprint() {
    let base = fingerprint(&Space::new(Length::Units(1), Length::Units(2)));
    assert_ne!(base, fingerprint(&Space::new(Length::Units(2), Length::Units(2))));
    assert_ne!(base, fingerprint(&Space::new(Length::Units(1), Length::Units(1))));
    assert_ne!(base, fingerprint(&Space::new(Length::Units(2), Length::Units(1))));
    assert_ne!(base, fingerprint(&Space::new(Length::FillPortion(1), Length::Units(2))));
    assert_ne!(
        fingerprint(&Space::with_width(Length::Fill)),
        fingerprint(&Space::with_height(Length::Fill))
    );
}

#[test]
fn every_layout_field_of_a_row_changes_its_fingerprint() {
    let base = || -> Row<'static, u32, Null> { Row::new().push(space(1)) };
    let plain = fingerprint(&base());
    assert_ne!(plain, fingerprint(&base().spacing(1)));
    assert_ne!(plain, fingerprint(&base().padding(Padding::new(1))));
    assert_ne!(plain, fingerprint(&base().padding(Padding { top: 0, right: 0, bottom: 0, left: 1 })));
    assert_ne!(plain, fingerprint(&base().width(Length::Fill)));
    assert_ne!(plain, fingerprint(&base().height(Length::Fill)));
    assert_ne!(plain, fingerprint(&base().max_width(10)));
    assert_ne!(plain, fingerprint(&base().max_height(10)));
    assert_ne!(plain, fingerprint(&base().align_items(Alignment::End)));
    assert_ne!(plain, fingerprint(&base().push(space(1))));
    assert_ne!(plain, fingerprint(&Row::<u32, Null>::new().push(space(2))));
    assert_ne!(plain, fingerprint(&Row::<u32, Null>::new()));
}

#[test]
fn a_container_feeds_its_layout_fields_and_its_content() {
    let base = || -> Container<'static, u32, Null> { Container::new(space(1)) };
    let plain = fingerprint(&base());
    assert_ne!(plain, fingerprint(&base().padding(Padding::new(1))));
    assert_ne!(plain, fingerprint(&base().width(Length::Fill)));
    assert_ne!(plain, fingerprint(&base().height(Length::Fill)));
    assert_ne!(plain, fingerprint(&base().max_width(10)));
    assert_ne!(plain, fingerprint(&base().max_height(10)));
    assert_ne!(plain, fingerprint(&Container::<u32, Null>::new(space(2))));
    assert_eq!(plain, fingerprint(&base().style(Style(3))));
    assert_ne!(plain, fingerprint(&base().align_x(Horizontal::Right)));
    assert_ne!(plain, fingerprint(&base().align_x(Horizontal::Center)));
    assert_ne!(plain, fingerprint(&base().align_y(Vertical::Bottom)));
    assert_ne!(plain, fingerprint(&base().center_y()));
    assert_ne!(fingerprint(&base().center_x()), fingerprint(&base().center_y()));
    assert_eq!(fingerprint(&base().center_x()), fingerprint(&base().align_x(Horizontal::Center)));
    assert_eq!(plain, fingerprint(&base().align_x(Horizontal::Left).align_y(Vertical::Top)));
}

#[test]
fn a_progress_bar_feeds_its_size_only() {
    let plain = fingerprint(&ProgressBar::new(0, 10, 5));
    assert_eq!(plain, fingerprint(&ProgressBar::new(0, 100, 50)));
    assert_eq!(plain, fingerprint(&ProgressBar::new(0, 10, 5).style(Style(1))));
    assert_ne!(plain, fingerprint(&ProgressBar::new(0, 10, 5).width(Length::Shrink)));
    assert_ne!(plain, fingerprint(&ProgressBar::new(0, 10, 5).height(Length::Units(30))));
    assert_ne!(
        fingerprint(&ProgressBar::new(0, 10, 5).height(Length::Units(30))),
        fingerprint(&ProgressBar::new(0, 10, 5).height(Length::Units(31)))
    );
}

#[test]
fn a_text_feeds_what_its_size_depends_on() {
    let base = || Text::new(String::from("text"));
    let plain = fingerprint(&base());
    assert_ne!(plain, fingerprint(&Text::new(String::from("texts"))));
    assert_ne!(plain, fingerprint(&base().size(20)));
    assert_ne!(plain, fingerprint(&base().width(Length::Fill)));
    assert_ne!(plain, fingerprint(&base().height(Length::Fill)));
    assert_eq!(plain, fingerprint(&base().color(Color { r: 0, g: 0, b: 0, a: 0 })));
    assert_ne!(plain, fingerprint(&base().font(Font::External(1))));
    assert_ne!(plain, fingerprint(&base().font(Font::External(0))));
    assert_ne!(
        fingerprint(&base().font(Font::External(0))),
        fingerprint(&base().font(Font::External(1)))
    );
}

#[test]
fn widgets_of_different_kinds_have_different_fingerprints() {
    let row: Row<'static, u32, Null> = Row::new();
    let prints = [
        fingerprint(&Space::new(Length::Shrink, Length::Shrink)),
        fingerprint(&ProgressBar::new(0, 1, 0)),
        fingerprint(&Text::new(String::new())),
        fingerprint(&checkbox(false, "")),
        fingerprint(&row),
    ];
    for (i, a) in prints.iter().enumerate() {
        for (j, b) in prints.iter().enumerate() {
            assert_eq!(a == b, i == j);
        }
    }
}

#[test]
fn layout_does_not_depend_on_whether_fingerprints_are_taken() {
    let row = || -> Row<'static, u32, Null> {
        Row::new().spacing(3).push(space(10)).push(Element::new(Box::new(checkbox(false, "x"))))
    };
    let limits = Limits::new(Size::zero(), Size::new(200, 100));
    let watched = row();
    let before = fingerprint(&watched);
    let with = Widget::<u32, Null>::layout(&watched, &Null, &limits);
    assert_eq!(before, fingerprint(&watched));
    let without = Widget::<u32, Null>::layout(&row(), &Null, &limits);
    assert_eq!(with.bounds(), without.bounds());
    assert_eq!(with.children().len(), without.children().len());
    for (a, b) in with.children().iter().zip(without.children().iter()) {
        assert_eq!(a.bounds(), b.bounds());
    }
}
