//! Keyboard events.
use vstd::prelude::*;

verus! {

/// The code of a key, as the platform reports it.
#[derive(Clone, Copy, Debug, PartialEq, Eq, Structural)]
pub struct KeyCode(pub u32);

/// A keyboard event.
#[derive(Clone, Copy, Debug, PartialEq, Eq, Structural)]
pub enum Event {
    /// A keyboard key was pressed.
    KeyPressed {
        /// The key identifier.
        key_code: KeyCode,
    },
    /// A keyboard key was released.
    KeyReleased {
        /// The key identifier.
        key_code: KeyCode,
    },
}

} // verus!
