//! The layout-and-interaction core of a retained-mode user-interface toolkit.
//!
//! A tree of [`Widget`]s computes its own geometry under [`layout::Limits`],
//! routes input events to its descendants, hands out the [`Primitive`]s that
//! draw it and feeds a [`Hasher`] with everything that its geometry depends
//! on, so that a layout is computed anew only when it has to be.
//!
//! All lengths are whole units: sizes are `u32`, positions `i32`. Where a sum
//! leaves the range of its type it stays at the end of the range.
//!
//! Every function comes with a contract. What a widget does is stated over
//! the spec functions of [`Widget`]; what a container does is stated in
//! terms of what its children do.
pub mod alignment;
pub mod clipboard;
pub mod compositor;
pub mod element;
pub mod event;
pub mod hasher;
pub mod keyboard;
pub mod layout;
pub mod length;
pub mod mapper;
pub mod mouse;
pub mod overlay;
pub mod padding;
pub mod point;
pub mod rectangle;
pub mod renderer;
pub mod screenshot;
pub mod size;
pub mod touch;
pub mod units;
pub mod vector;
pub mod widget;
pub mod window;

pub use alignment::Alignment;
pub use clipboard::Clipboard;
pub use element::Element;
pub use event::Event;
pub use hasher::Hasher;
pub use layout::Layout;
pub use length::Length;
pub use overlay::Overlay;
pub use padding::Padding;
pub use point::Point;
pub use rectangle::Rectangle;
pub use renderer::{Primitive, Renderer};
pub use size::Size;
pub use vector::Vector;
pub use widget::{Checkbox, Container, ProgressBar, Row, Space, Text, Widget};
