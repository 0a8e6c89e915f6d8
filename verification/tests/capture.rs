use ui_core::compositor::{Antialiasing, Compositor, Settings};
use ui_core::screenshot::{flip_rows, ColorType, Screenshot};
use ui_core::size::Size;

#[test]
fn flip_rows_reverses_the_row_order() {
    let source: Vec<u8> = vec![0, 0, 0, 1, 1, 1, 2, 2, 2, 3, 3, 3];
    let flipped = flip_rows(&source, 3);
    assert_eq!(flipped, vec![3, 3, 3, 2, 2, 2, 1, 1, 1, 0, 0, 0]);
}

#[test]
fn first_captured_row_is_the_last_source_row() {
    let height = 5usize;
    let row_len = 4usize;
    let mut source: Vec<u8> = Vec::new();
    for row in 0..height {
        for _ in 0..row_len {
            source.push(row as u8);
        }
    }
    let flipped = flip_rows(&source, row_len);
    for row in 0..height {
        let expected = (height - 1 - row) as u8;
        assert_eq!(&flipped[row * row_len..(row + 1) * row_len], &vec![expected; row_len][..]);
    }
}

#[test]
fn flip_rows_keeps_the_order_inside_a_row() {
    let source: Vec<u8> = vec![1, 2, 3, 4, 5, 6];
    assert_eq!(flip_rows(&source, 3), vec![4, 5, 6, 1, 2, 3]);
    assert_eq!(flip_rows(&source, 6), vec![1, 2, 3, 4, 5, 6]);
}

#[test]
fn flip_rows_twice_gives_the_source() {
    let source: Vec<u8> = (0..24).collect();
    assert_eq!(flip_rows(&flip_rows(&source, 6), 6), source);
}

#[test]
fn flip_rows_drops_a_partial_row() {
    let source: Vec<u8> = vec![1, 2, 3, 4, 5, 6, 7];
    assert_eq!(flip_rows(&source, 3), vec![4, 5, 6, 1, 2, 3]);
}

#[test]
fn flip_rows_without_rows_is_empty() {
    assert_eq!(flip_rows(&[1, 2, 3], 0), Vec::<u8>::new());
    assert_eq!(flip_rows(&[], 3), Vec::<u8>::new());
    assert_eq!(flip_rows(&[1, 2], 3), Vec::<u8>::new());
}

#[test]
fn screenshot_keeps_what_it_is_given() {
    let screenshot = Screenshot::new(vec![1, 2, 3, 4], 1, 1);
    assert_eq!(screenshot.bytes(), &vec![1, 2, 3, 4]);
    assert_eq!(screenshot.width(), 1);
    assert_eq!(screenshot.height(), 1);
    assert_eq!(screenshot.color_type(), ColorType::Rgba);
    let rgb = screenshot.encoding(ColorType::Rgb);
    assert_eq!(rgb.color_type(), ColorType::Rgb);
    assert_eq!(rgb.bytes(), &vec![1, 2, 3, 4]);
    assert_eq!(ColorType::Rgb.bytes_per_pixel(), 3);
    assert_eq!(ColorType::Rgba.bytes_per_pixel(), 4);
}

#[test]
fn compositor_learns_the_framebuffer_size() {
    let mut compositor = Compositor::new();
    assert_eq!(compositor.framebuffer_size(), None);
    assert_eq!(compositor.capture_len(), None);
    compositor.resize_viewport(Size::new(4, 3));
    assert_eq!(compositor.framebuffer_size(), Some(Size::new(4, 3)));
    assert_eq!(compositor.capture_len(), Some(36));
    compositor.present(Size::new(2, 2));
    assert_eq!(compositor.framebuffer_size(), Some(Size::new(2, 2)));
    assert_eq!(compositor.capture_len(), Some(12));
}

#[test]
fn a_frame_that_cannot_be_addressed_has_no_capture_length() {
    let mut compositor = Compositor::new();
    compositor.resize_viewport(Size::new(u32::MAX, u32::MAX));
    assert_eq!(compositor.capture_len(), None);
    compositor.resize_viewport(Size::new(u32::MAX, 1));
    assert_eq!(compositor.capture_len(), Some(3 * u32::MAX as usize));
}

#[test]
fn compositor_capture_is_top_down_rgb() {
    let mut compositor = Compositor::new();
    compositor.resize_viewport(Size::new(2, 3));
    let pixels: Vec<u8> = vec![
        0, 0, 0, 0, 0, 1, //
        1, 0, 0, 1, 0, 1, //
        2, 0, 0, 2, 0, 1,
    ];
    let capture = compositor.read(&pixels).unwrap();
    assert_eq!(capture.width(), 2);
    assert_eq!(capture.height(), 3);
    assert_eq!(capture.color_type(), ColorType::Rgb);
    assert_eq!(
        capture.bytes(),
        &vec![
            2, 0, 0, 2, 0, 1, //
            1, 0, 0, 1, 0, 1, //
            0, 0, 0, 0, 0, 1,
        ]
    );
}

#[test]
fn compositor_capture_of_an_empty_framebuffer_is_empty() {
    let mut compositor = Compositor::new();
    compositor.resize_viewport(Size::new(0, 7));
    assert_eq!(compositor.capture_len(), Some(0));
    let capture = compositor.read(&[]).unwrap();
    assert_eq!(capture.bytes().len(), 0);
    assert_eq!(capture.height(), 7);
}

#[test]
fn sample_count_follows_the_antialiasing() {
    let mut settings = Settings { default_text_size: 20, antialiasing: None };
    assert_eq!(Compositor::sample_count(&settings), 0);
    settings.antialiasing = Some(Antialiasing::MSAAx2);
    assert_eq!(Compositor::sample_count(&settings), 2);
    settings.antialiasing = Some(Antialiasing::MSAAx4);
    assert_eq!(Compositor::sample_count(&settings), 4);
    settings.antialiasing = Some(Antialiasing::MSAAx8);
    assert_eq!(Compositor::sample_count(&settings), 8);
    settings.antialiasing = Some(Antialiasing::MSAAx16);
    assert_eq!(Compositor::sample_count(&settings), 16);
}
