//! Clipboard slots.  The editor owns two independent slots with the same
//! contract: an internal "local" slot, and a second slot whose content a
//! host may mirror into the operating system's clipboard.

use vstd::prelude::*;

verus! {

/// Tags how stored clipboard content is pasted: `Normal` inserts the text
/// at the cursor; `Lines` inserts it as a whole line above the current one.
#[derive(Clone, Copy, Debug, PartialEq, Eq, Structural)]
pub enum ClipboardMode {
    Normal,
    Lines,
}

/// A spec-level snapshot of a clipboard slot.
#[verifier::ext_equal]
pub ghost struct ClipboardModel {
    pub text: Seq<char>,
    pub mode: ClipboardMode,
}

/// One clipboard slot: owned text plus a paste-mode tag.  Mutated only by
/// cut and copy operations, read only by paste operations.
pub struct Clipboard {
    text: String,
    mode: ClipboardMode,
}

impl Clipboard {
    pub closed spec fn model(&self) -> ClipboardModel {
        ClipboardModel { text: self.text@, mode: self.mode }
    }

    /// An empty slot in `Normal` mode.
    pub fn new() -> (r: Clipboard)
        ensures
            r.model().text == Seq::<char>::empty(),
            r.model().mode == ClipboardMode::Normal,
    {
        Clipboard { text: String::new(), mode: ClipboardMode::Normal }
    }

    /// Stores `content` under the given mode, replacing what was there.
    pub fn set(&mut self, content: &str, mode: ClipboardMode)
        ensures
            final(self).model().text == content@,
            final(self).model().mode == mode,
    {
        self.text = content.to_owned();
        self.mode = mode;
    }

    /// The stored text and its mode.
    pub fn get(&self) -> (r: (String, ClipboardMode))
        ensures
            r.0@ == self.model().text,
            r.1 == self.model().mode,
    {
        (self.text.clone(), self.mode)
    }

    /// Empties the slot and resets the mode.
    pub fn clear(&mut self)
        ensures
            final(self).model().text == Seq::<char>::empty(),
            final(self).model().mode == ClipboardMode::Normal,
    {
        self.text = String::new();
        self.mode = ClipboardMode::Normal;
    }
}

} // verus!
