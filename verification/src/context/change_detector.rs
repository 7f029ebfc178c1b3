//! Change detection: a snapshot counts as a change only when the window,
//! URL, document, selection or visible text meaningfully drifted from the
//! last snapshot seen.

use vstd::prelude::*;
use crate::text::{opt_eq};
use crate::types::{ContextSnapshot, SnapshotView};

verus! {

/// A length difference above this many characters is significant.
pub const SIGNIFICANT_CHAR_DELTA: usize = 100;

/// Whether the visible text drifted: appeared, disappeared, or changed length
/// by more than `SIGNIFICANT_CHAR_DELTA` characters or by more than a tenth
/// of the longer text. Lengths are counted in characters; the tenth is
/// compared exactly (`10 * delta > longer`), which is what the ratio test
/// `delta / longer > 0.1` computes for every length a text in memory can
/// have.
pub open spec fn diff_is_significant(prev: Option<Seq<char>>, new: Option<Seq<char>>) -> bool {
    match (prev, new) {
        (None, None) => false,
        (None, Some(_)) => true,
        (Some(_), None) => true,
        (Some(p), Some(n)) => {
            if p == n {
                false
            } else {
                let lp = p.len() as int;
                let ln = n.len() as int;
                let delta = if lp >= ln { lp - ln } else { ln - lp };
                let longer = if lp >= ln { lp } else { ln };
                let denom = if longer >= 1 { longer } else { 1 };
                delta > SIGNIFICANT_CHAR_DELTA || 10 * delta > denom
            }
        },
    }
}

/// Whether `new` differs meaningfully from the previous snapshot (a first
/// snapshot always does).
pub open spec fn is_meaningful_change(prev: Option<SnapshotView>, new: SnapshotView) -> bool {
    match prev {
        None => true,
        Some(p) => {
            ||| p.hwnd != new.hwnd
            ||| p.window_title != new.window_title
            ||| p.url != new.url
            ||| p.document_path != new.document_path
            ||| p.selected_text != new.selected_text
            ||| diff_is_significant(p.visible_text, new.visible_text)
        },
    }
}

/// Exec form of [`diff_is_significant`].
pub fn text_diff_significant(prev: &Option<String>, new: &Option<String>) -> (r: bool)
    ensures
        r == diff_is_significant(crate::text::opt_view(*prev), crate::text::opt_view(*new)),
{
    match (prev, new) {
        (None, None) => false,
        (None, Some(_)) => true,
        (Some(_), None) => true,
        (Some(p), Some(n)) => {
            if *p == *n {
                return false;
            }
            let lp = p.as_str().unicode_len();
            let ln = n.as_str().unicode_len();
            let delta = if lp >= ln { lp - ln } else { ln - lp };
            let longer = if lp >= ln { lp } else { ln };
            let denom = if longer >= 1 { longer } else { 1 };
            delta > SIGNIFICANT_CHAR_DELTA || delta > denom / 10
        },
    }
}

/// Remembers the last snapshot seen.
pub struct ChangeDetector {
    last_snapshot: Option<ContextSnapshot>,
}

impl ChangeDetector {
    /// The view of the last snapshot seen.
    pub closed spec fn baseline(&self) -> Option<SnapshotView> {
        match self.last_snapshot {
            Some(s) => Some(s@),
            None => None,
        }
    }

    /// A detector that has seen nothing yet.
    pub fn new() -> (d: ChangeDetector)
        ensures
            d.baseline().is_none(),
    {
        ChangeDetector { last_snapshot: None }
    }

    /// Returns `true` if `new` differs meaningfully from the last snapshot
    /// seen, or if it is the first. Always records `new` as the baseline for
    /// the next call, whether or not it counted as a change.
    pub fn has_changed(&mut self, new: &ContextSnapshot) -> (changed: bool)
        ensures
            changed == is_meaningful_change(old(self).baseline(), new@),
            final(self).baseline() == Some(new@),
    {
        let changed = match &self.last_snapshot {
            None => true,
            Some(prev) => {
                prev.hwnd != new.hwnd || !(prev.window_title == new.window_title) || !opt_eq(
                    &prev.url,
                    &new.url,
                ) || !opt_eq(&prev.document_path, &new.document_path) || !opt_eq(
                    &prev.selected_text,
                    &new.selected_text,
                ) || text_diff_significant(&prev.visible_text, &new.visible_text)
            },
        };
        self.last_snapshot = Some(new.copy());
        changed
    }
}

impl Default for ChangeDetector {
    /// Same as `new`.
    fn default() -> (d: Self)
        ensures
            d.baseline().is_none(),
    {
        Self::new()
    }
}

/// A snapshot compared with itself is never a change: after a detector has
/// seen a snapshot, presenting the same snapshot again reports no change.
pub proof fn law_identical_snapshot_is_no_change(s: SnapshotView)
    ensures
        !is_meaningful_change(Some(s), s),
{
}

/// The first snapshot a detector sees is always a change.
pub proof fn law_first_snapshot_is_a_change(s: SnapshotView)
    ensures
        is_meaningful_change(None, s),
{
}

/// A change of window handle, title, URL, document or selection is always a
/// change, whatever the visible text does.
pub proof fn law_identity_fields_always_count(p: SnapshotView, n: SnapshotView)
    requires
        p.hwnd != n.hwnd || p.window_title != n.window_title || p.url != n.url || p.document_path
            != n.document_path || p.selected_text != n.selected_text,
    ensures
        is_meaningful_change(Some(p), n),
{
}

} // verus!
