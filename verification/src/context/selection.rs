//! Selection tracking: the UI Automation selection first, the clipboard as a
//! fallback. Reading either is the application's job; the tracker decides
//! when the clipboard must be read again and which text counts as selected.

use vstd::prelude::*;
use crate::text::{clone_opt, opt_view};

verus! {

/// A source of the current selection.
pub trait SelectionSource {
    /// The current selection, if any.
    fn poll(&mut self) -> Option<String>;
}

/// A selection source that never reports a selection.
pub struct NoSelectionSource;

impl SelectionSource for NoSelectionSource {
    fn poll(&mut self) -> (r: Option<String>)
        ensures
            r.is_none(),
    {
        None
    }
}

/// Remembers the clipboard sequence number last read and the text read then.
pub struct SelectionTracker {
    pub last_clipboard_seq: u32,
    pub last_clipboard_text: Option<String>,
}

impl SelectionTracker {
    /// A tracker that has not read the clipboard yet.
    pub fn new() -> (t: SelectionTracker)
        ensures
            t.last_clipboard_seq == 0,
            t.last_clipboard_text.is_none(),
    {
        SelectionTracker { last_clipboard_seq: 0, last_clipboard_text: None }
    }

    /// The clipboard is cheap to poll for its sequence number but expensive
    /// to read, so it is re-read only when the sequence number moved.
    pub fn should_reread(&self, current_seq: u32) -> (r: bool)
        ensures
            r == (current_seq != self.last_clipboard_seq),
    {
        current_seq != self.last_clipboard_seq
    }

    /// Records what the clipboard held at sequence number `seq`.
    pub fn record_clipboard(&mut self, seq: u32, text: Option<String>)
        ensures
            final(self).last_clipboard_seq == seq,
            final(self).last_clipboard_text == text,
    {
        self.last_clipboard_seq = seq;
        self.last_clipboard_text = text;
    }

    /// The clipboard text last read.
    pub fn clipboard_text(&self) -> (r: Option<String>)
        ensures
            r == self.last_clipboard_text,
    {
        clone_opt(&self.last_clipboard_text)
    }
}

impl Default for SelectionTracker {
    /// Same as `new`.
    fn default() -> (t: Self)
        ensures
            t.last_clipboard_seq == 0,
            t.last_clipboard_text.is_none(),
    {
        Self::new()
    }
}

/// The selection to report: the UI Automation selection when there is one,
/// the clipboard text otherwise.
pub fn choose_selection(uia_selection: Option<String>, clipboard_text: Option<String>) -> (r: Option<String>)
    ensures
        r == if uia_selection.is_some() {
            uia_selection
        } else {
            clipboard_text
        },
{
    if uia_selection.is_some() {
        uia_selection
    } else {
        clipboard_text
    }
}

} // verus!
