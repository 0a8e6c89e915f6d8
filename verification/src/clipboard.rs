//! Access the clipboard.
use vstd::prelude::*;

verus! {

/// A buffer for short-term storage and transfer within and between
/// applications.
///
/// Nothing is promised of what a clipboard holds: another application may
/// change it at any time.
pub trait Clipboard {
    /// Reads the current content of the [`Clipboard`] as text.
    fn read(&self) -> Option<String>;

    /// Writes the given text contents to the [`Clipboard`].
    fn write(&mut self, contents: String);
}

/// A clipboard that is always empty.
#[derive(Clone, Copy, Debug)]
pub struct Null;

impl Clipboard for Null {
    /// There is never anything to read.
    fn read(&self) -> (contents: Option<String>)
        ensures
            contents.is_none(),
    {
        None
    }

    fn write(&mut self, contents: String) {
    }
}

} // verus!
