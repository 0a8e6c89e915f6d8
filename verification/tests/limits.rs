use ui_core::layout::Limits;
use ui_core::length::Length;
use ui_core::padding::Padding;
use ui_core::size::Size;

#[test]
fn resolve_cuts_down_to_the_maximum() {
    let limits = Limits::new(Size::zero(), Size::new(100, 50)).width(Length::Shrink).height(Length::Shrink);
    assert_eq!(limits.resolve(Size::new(30, 40)), Size::new(30, 40));
    assert_eq!(limits.resolve(Size::new(300, 400)), Size::new(100, 50));
}

#[test]
fn resolve_stretches_to_fill() {
    let limits = Limits::new(Size::zero(), Size::new(100, 50)).width(Length::Fill).height(Length::FillPortion(3));
    assert_eq!(limits.resolve(Size::zero()), Size::new(100, 50));
}

#[test]
fn resolve_lies_within_the_limits() {
    let windows = [
        Limits::none(),
        Limits::new(Size::new(10, 10), Size::new(20, 20)),
        Limits::new(Size::new(30, 5), Size::new(7, 50)),
        Limits::new(Size::zero(), Size::new(100, 100)).min_width(40).max_height(60),
    ];
    let sizes = [Size::zero(), Size::new(15, 15), Size::new(1000, 1), Size::new(u32::MAX, u32::MAX)];
    let lengths = [Length::Shrink, Length::Fill, Length::FillPortion(2), Length::Units(12), Length::Units(5000)];
    for window in windows.iter() {
        for length in lengths.iter() {
            let limits = window.width(*length).height(*length);
            for size in sizes.iter() {
                let resolved = limits.resolve(*size);
                assert!(window.min().width <= resolved.width && resolved.width <= window.max().width);
                assert!(window.min().height <= resolved.height && resolved.height <= window.max().height);
            }
        }
    }
}

#[test]
fn new_raises_the_maximum_to_the_minimum() {
    let limits = Limits::new(Size::new(30, 5), Size::new(7, 50));
    assert_eq!(limits.min(), Size::new(30, 5));
    assert_eq!(limits.max(), Size::new(30, 50));
    assert_eq!(limits.fill(), Size::new(30, 50));
}

#[test]
fn none_is_unbounded() {
    let limits = Limits::none();
    assert_eq!(limits.min(), Size::zero());
    assert_eq!(limits.max(), Size::new(u32::MAX, u32::MAX));
}

#[test]
fn fixed_units_are_brought_into_the_window() {
    let limits = Limits::new(Size::new(10, 10), Size::new(100, 100));
    let fixed = limits.width(Length::Units(50)).height(Length::Units(500));
    assert_eq!(fixed.min(), Size::new(50, 100));
    assert_eq!(fixed.max(), Size::new(50, 100));
    assert_eq!(fixed.resolve(Size::zero()), Size::new(50, 100));
    let small = limits.width(Length::Units(1));
    assert_eq!(small.min().width, 10);
    assert_eq!(small.max().width, 10);
}

#[test]
fn bounds_never_cross() {
    let limits = Limits::new(Size::new(10, 10), Size::new(100, 100));
    assert_eq!(limits.max_width(5).max(), Size::new(10, 100));
    assert_eq!(limits.max_height(50).max(), Size::new(100, 50));
    assert_eq!(limits.min_width(500).min(), Size::new(100, 10));
    assert_eq!(limits.min_height(50).min(), Size::new(10, 50));
}

#[test]
fn pad_takes_the_padding_off_every_bound() {
    let limits = Limits::new(Size::new(10, 10), Size::new(100, 100));
    let padded = limits.pad(Padding { top: 1, right: 2, bottom: 3, left: 4 });
    assert_eq!(padded.min(), Size::new(4, 6));
    assert_eq!(padded.max(), Size::new(94, 96));
    let none = limits.pad(Padding::new(1000));
    assert_eq!(none.min(), Size::zero());
    assert_eq!(none.max(), Size::zero());
    assert_eq!(limits.shrink(Size::new(20, 200)).max(), Size::new(80, 0));
}

#[test]
fn loose_drops_the_minimum() {
    let limits = Limits::new(Size::new(10, 10), Size::new(100, 100)).loose();
    assert_eq!(limits.min(), Size::zero());
    assert_eq!(limits.max(), Size::new(100, 100));
}

#[test]
fn clamp_brings_a_size_into_the_window() {
    let limits = Limits::new(Size::new(10, 10), Size::new(100, 100));
    assert_eq!(limits.clamp(Size::new(5, 500)), Size::new(10, 100));
    assert_eq!(limits.clamp(Size::new(50, 60)), Size::new(50, 60));
}

#[test]
fn shrink_after_fill_stays_shrunk() {
    let limits = Limits::new(Size::zero(), Size::new(100, 100)).width(Length::Shrink).width(Length::Fill);
    assert_eq!(limits.resolve(Size::new(10, 0)).width, 10);
}
