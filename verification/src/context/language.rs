//! Language detection for visible text.

use vstd::prelude::*;
use crate::text::opt_view;

verus! {

/// Byte length of the UTF-8 encoding of `s`, as `str::len` reports it.
pub open spec fn utf8_len(s: Seq<char>) -> int {
    (vstd::utf8::encode_utf8(s).len() as usize) as int
}

/// Texts shorter than this many bytes are not classified.
pub const MIN_CHARS_FOR_DETECTION: usize = 20;

/// The ISO 639-3 code whatlang's `detect` reports for a text, if it
/// recognizes a language.
pub uninterp spec fn whatlang_code(text: Seq<char>) -> Option<Seq<char>>;

/// Runs whatlang's `detect` on `text` and returns the detected language's
/// ISO 639-3 code (`Lang::code`). The contract names the result: it is a
/// function of the text alone.
#[verifier::external_body]
fn whatlang_detect(text: &str) -> (r: Option<String>)
    ensures
        opt_view(r) == whatlang_code(text@),
{
    match whatlang::detect(text) {
        Some(info) => Some(info.lang().code().to_string()),
        None => None,
    }
}

/// The language of a text: none for texts under `MIN_CHARS_FOR_DETECTION`
/// bytes, otherwise whatever whatlang recognizes.
pub open spec fn detected_language(text: Seq<char>) -> Option<Seq<char>> {
    if utf8_len(text) < MIN_CHARS_FOR_DETECTION {
        None
    } else {
        whatlang_code(text)
    }
}

/// Detects the language of `text` as an ISO 639-3 code.
pub fn detect_language(text: &str) -> (r: Option<String>)
    ensures
        opt_view(r) == detected_language(text@),
{
    if text.len() < MIN_CHARS_FOR_DETECTION {
        return None;
    }
    whatlang_detect(text)
}

} // verus!
