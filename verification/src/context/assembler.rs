//! Snapshot assembly: turns what the vision engine captured into a
//! [`ContextSnapshot`].

use vstd::prelude::*;
use crate::runtime::new_uuid;
use crate::text::{chars_of, opt_view, string_from_chars, slice_chars};
use crate::types::{CaptureMethod, ContextSnapshot, Metadata, SnapshotView};

verus! {

/// Visible text is truncated to this many characters.
pub const MAX_VISIBLE_TEXT_CHARS: usize = 50_000;

/// What the vision engine captured of the foreground window: its identity
/// and the text read through UI Automation and through OCR, when read.
pub struct VisionCapture {
    pub hwnd: isize,
    pub window_title: String,
    pub process_name: String,
    pub process_id: u32,
    pub uia_text: Option<String>,
    pub ocr_text: Option<String>,
    pub timestamp: i64,
}

/// `text` cut to its first `MAX_VISIBLE_TEXT_CHARS` characters.
pub open spec fn truncated(text: Seq<char>) -> Seq<char> {
    if text.len() > MAX_VISIBLE_TEXT_CHARS {
        text.take(MAX_VISIBLE_TEXT_CHARS as int)
    } else {
        text
    }
}

/// The visible text merged from the UI Automation and OCR readings: either
/// one alone, or both joined by a newline, truncated.
pub open spec fn merged_text(uia: Option<Seq<char>>, ocr: Option<Seq<char>>) -> Option<Seq<char>> {
    match (uia, ocr) {
        (Some(u), None) => Some(truncated(u)),
        (None, Some(o)) => Some(truncated(o)),
        (Some(u), Some(o)) => Some(truncated(u + seq!['\n'] + o)),
        (None, None) => None,
    }
}

/// Hybrid when both readings exist, OCR when only OCR does, UI Automation
/// otherwise (also the default when there is no reading at all).
pub open spec fn capture_method_of(has_uia: bool, has_ocr: bool) -> CaptureMethod {
    if has_uia && has_ocr {
        CaptureMethod::Hybrid
    } else if has_ocr {
        CaptureMethod::Ocr
    } else {
        CaptureMethod::Uia
    }
}

/// The snapshot assembled from `vision` under the identifier `id`.
pub open spec fn assembled_view(vision: VisionCapture, id: u128) -> SnapshotView {
    SnapshotView {
        id,
        timestamp: vision.timestamp,
        window_title: vision.window_title@,
        process_name: vision.process_name@,
        process_id: vision.process_id as i64,
        hwnd: Some(vision.hwnd as i64),
        url: None,
        document_path: None,
        visible_text: merged_text(opt_view(vision.uia_text), opt_view(vision.ocr_text)),
        selected_text: None,
        metadata: Seq::empty(),
        language: None,
        capture_method: capture_method_of(vision.uia_text.is_some(), vision.ocr_text.is_some()),
    }
}

/// Cuts `text` to its first `MAX_VISIBLE_TEXT_CHARS` characters.
pub fn truncate_chars(text: String) -> (r: String)
    ensures
        r@ == truncated(text@),
{
    if text.as_str().unicode_len() > MAX_VISIBLE_TEXT_CHARS {
        let v = chars_of(text.as_str());
        string_from_chars(&slice_chars(&v, 0, MAX_VISIBLE_TEXT_CHARS))
    } else {
        text
    }
}

/// Merges the two readings (see [`merged_text`]).
pub fn merge_text(uia: &Option<String>, ocr: &Option<String>) -> (r: Option<String>)
    ensures
        opt_view(r) == merged_text(opt_view(*uia), opt_view(*ocr)),
{
    match (uia, ocr) {
        (Some(u), None) => Some(truncate_chars(u.clone())),
        (None, Some(o)) => Some(truncate_chars(o.clone())),
        (Some(u), Some(o)) => {
            let joined = u.clone().concat("\n").concat(o.as_str());
            proof {
                reveal_strlit("\n");
                assert(joined@ == u@ + seq!['\n'] + o@);
            }
            Some(truncate_chars(joined))
        },
        (None, None) => None,
    }
}

/// Chooses the capture method from which readings exist.
pub fn resolve_capture_method(has_uia: bool, has_ocr: bool) -> (m: CaptureMethod)
    ensures
        m == capture_method_of(has_uia, has_ocr),
{
    if has_uia && has_ocr {
        CaptureMethod::Hybrid
    } else if has_ocr {
        CaptureMethod::Ocr
    } else {
        CaptureMethod::Uia
    }
}

/// Turns vision captures into snapshots.
#[derive(Clone, Copy, Debug, Default)]
pub struct SnapshotAssembler;

impl SnapshotAssembler {
    /// Builds the snapshot for `vision` under the identifier `id`: window and
    /// process fields are copied, the text is merged and truncated, and the
    /// fields that enrichers and detectors fill start empty.
    pub fn assemble_with_id(&self, vision: VisionCapture, id: u128) -> (s: ContextSnapshot)
        ensures
            s.wf(),
            s.id == id,
            s.timestamp == vision.timestamp,
            s.window_title == vision.window_title,
            s.process_name == vision.process_name,
            s.process_id == vision.process_id as i64,
            s.hwnd == Some(vision.hwnd as i64),
            s.url.is_none(),
            s.document_path.is_none(),
            opt_view(s.visible_text) == merged_text(opt_view(vision.uia_text), opt_view(vision.ocr_text)),
            s.selected_text.is_none(),
            s.metadata@.len() == 0,
            s.language.is_none(),
            s.capture_method == capture_method_of(vision.uia_text.is_some(), vision.ocr_text.is_some()),
            s@ == assembled_view(vision, id),
    {
        let visible_text = merge_text(&vision.uia_text, &vision.ocr_text);
        let capture_method = resolve_capture_method(vision.uia_text.is_some(), vision.ocr_text.is_some());
        let ghost v = vision;
        let s = ContextSnapshot {
            id,
            timestamp: vision.timestamp,
            window_title: vision.window_title,
            process_name: vision.process_name,
            process_id: vision.process_id as i64,
            hwnd: Some(vision.hwnd as i64),
            url: None,
            document_path: None,
            visible_text,
            selected_text: None,
            metadata: Metadata::new(),
            language: None,
            capture_method,
        };
        assert(s.metadata@ =~= Seq::<(Seq<char>, Seq<char>)>::empty());
        assert(s@ =~= assembled_view(v, id));
        s
    }

    /// Builds the snapshot for `vision` under a fresh random identifier.
    pub fn assemble(&self, vision: VisionCapture) -> (s: ContextSnapshot)
        ensures
            s.wf(),
            s.timestamp == vision.timestamp,
            s.window_title == vision.window_title,
            s.process_name == vision.process_name,
            s.process_id == vision.process_id as i64,
            s.hwnd == Some(vision.hwnd as i64),
            s.url.is_none(),
            s.document_path.is_none(),
            opt_view(s.visible_text) == merged_text(opt_view(vision.uia_text), opt_view(vision.ocr_text)),
            s.selected_text.is_none(),
            s.metadata@.len() == 0,
            s.language.is_none(),
            s.capture_method == capture_method_of(vision.uia_text.is_some(), vision.ocr_text.is_some()),
            s@ == assembled_view(vision, s.id),
    {
        let id = new_uuid();
        self.assemble_with_id(vision, id)
    }
}

/// Truncation keeps the beginning of a text: the result is the text's
/// first `min(len, MAX_VISIBLE_TEXT_CHARS)` characters.
pub proof fn law_truncation_keeps_the_start(t: Seq<char>)
    ensures
        truncated(t).len() == if t.len() <= MAX_VISIBLE_TEXT_CHARS { t.len() } else { MAX_VISIBLE_TEXT_CHARS as nat },
        forall|i: int| 0 <= i < truncated(t).len() ==> #[trigger] truncated(t)[i] == t[i],
{
}

/// The visible text joins the UI Automation reading and the OCR reading,
/// in that order, on a line feed; a single reading is kept as it is; a
/// capture is hybrid exactly when it has both readings, OCR when it has
/// only OCR text, and UI Automation otherwise (as long as the texts fit
/// under the limit).
pub proof fn law_readings_are_merged_in_order(u: Seq<char>, o: Seq<char>)
    requires
        u.len() + 1 + o.len() <= MAX_VISIBLE_TEXT_CHARS,
    ensures
        merged_text(Some(u), Some(o)) == Some(u + seq!['\n'] + o),
        merged_text(Some(u), None) == Some(u),
        merged_text(None, Some(o)) == Some(o),
        merged_text(None, None) is None,
        capture_method_of(true, true) == CaptureMethod::Hybrid,
        capture_method_of(false, true) == CaptureMethod::Ocr,
        capture_method_of(true, false) == CaptureMethod::Uia,
        capture_method_of(false, false) == CaptureMethod::Uia,
{
}

} // verus!
