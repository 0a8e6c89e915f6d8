//! Window events.
use vstd::prelude::*;

verus! {

/// A window-related event.
#[derive(Clone, Copy, Debug, PartialEq, Eq, Structural)]
pub enum Event {
    /// A window was resized.
    Resized {
        /// The new width of the window, in whole units.
        width: u32,
        /// The new height of the window, in whole units.
        height: u32,
    },
}

} // verus!
