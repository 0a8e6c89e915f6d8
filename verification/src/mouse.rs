//! Mouse events.
use crate::point::Point;
use vstd::prelude::*;

verus! {

/// A button of a mouse.
#[derive(Clone, Copy, Debug, PartialEq, Eq, Structural)]
pub enum Button {
    /// The left mouse button.
    Left,
    /// The right mouse button.
    Right,
    /// The middle (wheel) button.
    Middle,
    /// Some other button.
    Other(u8),
}

/// A mouse event.
#[derive(Clone, Copy, Debug, PartialEq, Eq, Structural)]
pub enum Event {
    /// The mouse cursor was moved.
    CursorMoved {
        /// The new position of the mouse cursor.
        position: Point,
    },
    /// A mouse button was pressed.
    ButtonPressed(Button),
    /// A mouse button was released.
    ButtonReleased(Button),
    /// The mouse wheel was scrolled.
    WheelScrolled {
        /// The horizontal amount, in whole units.
        x: i32,
        /// The vertical amount, in whole units.
        y: i32,
    },
}

} // verus!
