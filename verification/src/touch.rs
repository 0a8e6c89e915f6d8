//! Touch events.
use crate::point::Point;
use vstd::prelude::*;

verus! {

/// A unique identifier representing a finger on a touch interaction.
#[derive(Clone, Copy, Debug, PartialEq, Eq, Structural)]
pub struct Finger(pub u64);

/// A touch interaction.
#[derive(Clone, Copy, Debug, PartialEq, Eq, Structural)]
pub enum Event {
    /// A touch interaction was started.
    FingerPressed {
        /// The finger that touched.
        id: Finger,
        /// Where it touched.
        position: Point,
    },
    /// An on-going touch interaction was moved.
    FingerMoved {
        /// The finger that moved.
        id: Finger,
        /// Where it moved to.
        position: Point,
    },
    /// A touch interaction was ended.
    FingerLifted {
        /// The finger that was lifted.
        id: Finger,
        /// Where it was lifted.
        position: Point,
    },
    /// A touch interaction was canceled.
    FingerLost {
        /// The finger that was lost.
        id: Finger,
        /// Where it was last seen.
        position: Point,
    },
}

} // verus!
