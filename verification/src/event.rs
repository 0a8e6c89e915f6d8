//! Handle events of a user interface.
use crate::keyboard;
use crate::mouse;
use crate::touch;
use crate::window;
use vstd::prelude::*;

verus! {

/// A user interface event.
#[derive(Clone, Copy, Debug, PartialEq, Eq, Structural)]
pub enum Event {
    /// A keyboard event.
    Keyboard(keyboard::Event),
    /// A mouse event.
    Mouse(mouse::Event),
    /// A window event.
    Window(window::Event),
    /// A touch event.
    Touch(touch::Event),
}

impl Event {
    /// Whether the event is a press: of the left mouse button, or of a
    /// finger.
    pub open spec fn spec_is_press(self) -> bool {
        match self {
            Event::Mouse(mouse::Event::ButtonPressed(mouse::Button::Left)) => true,
            Event::Touch(touch::Event::FingerPressed { .. }) => true,
            _ => false,
        }
    }

    /// Whether the event is a press: of the left mouse button, or of a
    /// finger.
    pub fn is_press(&self) -> (press: bool)
        ensures
            press == self.spec_is_press(),
    {
        match self {
            Event::Mouse(mouse::Event::ButtonPressed(mouse::Button::Left)) => true,
            Event::Touch(touch::Event::FingerPressed { .. }) => true,
            _ => false,
        }
    }
}

/// The status of an [`Event`] after being processed.
#[derive(Clone, Copy, Debug, PartialEq, Eq, Structural)]
pub enum Status {
    /// The [`Event`] was **not** handled by any widget.
    Ignored,
    /// The [`Event`] was handled and processed by a widget.
    Captured,
}

impl Status {
    /// The status of an event that was offered to two widgets: captured if
    /// either of them captured it.
    pub open spec fn spec_merge(self, b: Status) -> Status {
        match self {
            Status::Ignored => b,
            Status::Captured => Status::Captured,
        }
    }

    /// Merges two [`Status`] into one.
    ///
    /// `Captured` takes precedence over `Ignored`.
    pub fn merge(self, b: Status) -> (merged: Status)
        ensures
            merged == self.spec_merge(b),
    {
        match self {
            Status::Ignored => b,
            Status::Captured => Status::Captured,
        }
    }
}

/// The status of an event that was offered to widgets with the given
/// statuses, in order.
pub open spec fn merge_all(statuses: Seq<Status>) -> Status
    decreases statuses.len(),
{
    if statuses.len() == 0 {
        Status::Ignored
    } else {
        merge_all(statuses.drop_last()).spec_merge(statuses.last())
    }
}

/// Merging is associative.
pub proof fn lemma_merge_associative(a: Status, b: Status, c: Status)
    ensures
        a.spec_merge(b).spec_merge(c) == a.spec_merge(b.spec_merge(c)),
{
}

/// Merging is commutative.
pub proof fn lemma_merge_commutative(a: Status, b: Status)
    ensures
        a.spec_merge(b) == b.spec_merge(a),
{
}

/// `Captured` absorbs and `Ignored` is neutral, on either side.
pub proof fn lemma_merge_captured_absorbs(a: Status)
    ensures
        a.spec_merge(Status::Captured) == Status::Captured,
        Status::Captured.spec_merge(a) == Status::Captured,
        a.spec_merge(Status::Ignored) == a,
        Status::Ignored.spec_merge(a) == a,
{
}

/// An event offered to several widgets is captured exactly if one of them
/// captured it, in whatever order they come.
pub proof fn lemma_merge_all_captured(statuses: Seq<Status>)
    ensures
        merge_all(statuses) == Status::Captured <==> exists|i: int|
            0 <= i < statuses.len() && statuses[i] == Status::Captured,
    decreases statuses.len(),
{
    if statuses.len() > 0 {
        let init = statuses.drop_last();
        lemma_merge_all_captured(init);
        if merge_all(init) == Status::Captured {
            let i = choose|i: int| 0 <= i < init.len() && init[i] == Status::Captured;
            assert(statuses[i] == Status::Captured);
        } else if statuses.last() == Status::Captured {
            assert(statuses[statuses.len() - 1] == Status::Captured);
        } else {
            assert forall|i: int| 0 <= i < statuses.len() implies statuses[i]
                != Status::Captured by {
                if i < init.len() {
                    assert(init[i] == statuses[i]);
                }
            }
        }
    }
}

} // verus!
