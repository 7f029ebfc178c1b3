//! Reading a streamed response: splitting the received text into lines,
//! taking the payload of a server-sent-event line, and what each decoded
//! chunk makes the reader do. Receiving bytes, decoding them and parsing
//! JSON payloads are the application's part.

use vstd::prelude::*;
use crate::text::{chars_of, is_blank, slice_chars, starts_with, string_from_chars, trim_ws, trim_ws_chars, starts_with_chars, chars_eq};

verus! {

/// What the reader does after one event or chunk.
#[derive(Debug)]
pub enum StreamStep {
    /// Forward this text to the caller.
    Emit(String),
    /// Nothing to forward; keep reading.
    Skip,
    /// The response is complete; stop reading.
    Stop,
}

/// The position of the first line feed in `s`, if any.
pub open spec fn first_newline(s: Seq<char>) -> Option<int> {
    if exists|i: int| 0 <= i < s.len() && s[i] == '\n' {
        Some(choose|i: int| 0 <= i < s.len() && s[i] == '\n' && forall|j: int| 0 <= j < i ==> s[j] != '\n')
    } else {
        None
    }
}

/// Text received but not yet split into complete lines.
pub struct LineBuffer {
    pending: Vec<char>,
}

impl LineBuffer {
    /// The text waiting for its line feed.
    pub closed spec fn pending(&self) -> Seq<char> {
        self.pending@
    }

    /// An empty buffer.
    pub fn new() -> (b: LineBuffer)
        ensures
            b.pending() == Seq::<char>::empty(),
    {
        LineBuffer { pending: Vec::new() }
    }

    /// Appends received text.
    pub fn push_text(&mut self, text: &str)
        ensures
            final(self).pending() == old(self).pending() + text@,
    {
        let cs = chars_of(text);
        let mut i: usize = 0;
        let ghost start = self.pending@;
        while i < cs.len()
            invariant
                i <= cs.len(),
                cs@ == text@,
                self.pending@ == start + cs@.subrange(0, i as int),
            decreases cs.len() - i,
        {
            self.pending.push(cs[i]);
            assert(cs@.subrange(0, i + 1) =~= cs@.subrange(0, i as int).push(cs@[i as int]));
            i += 1;
        }
        assert(cs@.subrange(0, cs.len() as int) =~= cs@);
    }

    /// Takes the next complete line, without its line feed, if a line feed
    /// has arrived; the rest stays pending.
    pub fn next_line(&mut self) -> (r: Option<String>)
        ensures
            match first_newline(old(self).pending()) {
                Some(p) => r matches Some(line) && line@ == old(self).pending().subrange(0, p)
                    && final(self).pending() == old(self).pending().subrange(p + 1, old(self).pending().len() as int),
                None => r is None && final(self).pending() == old(self).pending(),
            },
    {
        let ghost s = self.pending@;
        let mut i: usize = 0;
        while i < self.pending.len()
            invariant
                i <= self.pending.len(),
                s == self.pending@,
                s == old(self).pending(),
                forall|j: int| 0 <= j < i ==> s[j] != '\n',
            decreases self.pending.len() - i,
        {
            if self.pending[i] == '\n' {
                proof {
                    assert(0 <= i < s.len() && s[i as int] == '\n' && forall|j: int| 0 <= j < i ==> s[j] != '\n');
                    let p = choose|p: int| 0 <= p < s.len() && s[p] == '\n' && forall|j: int| 0 <= j < p ==> s[j] != '\n';
                    assert(s[i as int] == '\n');
                    if p < i {
                        assert(s[p] != '\n');
                    }
                    if i < p {
                        assert(s[i as int] != '\n');
                    }
                    assert(p == i);
                    assert(first_newline(s) == Some(i as int));
                }
                let line_chars = slice_chars(&self.pending, 0, i);
                let rest = slice_chars(&self.pending, i + 1, self.pending.len());
                self.pending = rest;
                return Some(string_from_chars(&line_chars));
            }
            i += 1;
        }
        None
    }
}

impl Default for LineBuffer {
    /// Same as `new`.
    fn default() -> (b: Self)
        ensures
            b.pending() == Seq::<char>::empty(),
    {
        Self::new()
    }
}

/// The payload of a server-sent-event line: the line trimmed, when it
/// starts with `data:`, without that prefix and trimmed again; nothing for
/// a blank line or any other field.
pub open spec fn sse_payload_of(line: Seq<char>) -> Option<Seq<char>> {
    let t = trim_ws(line);
    if t.len() == 0 || !starts_with(t, "data:"@) {
        None
    } else {
        Some(trim_ws(t.subrange(5, t.len() as int)))
    }
}

/// The payload of a server-sent-event line (see [`sse_payload_of`]).
pub fn sse_payload(line: &str) -> (r: Option<String>)
    ensures
        crate::text::opt_view(r) == sse_payload_of(line@),
{
    let t = trim_ws_chars(&chars_of(line));
    let prefix = chars_of("data:");
    proof {
        reveal_strlit("data:");
    }
    if t.len() == 0 || !starts_with_chars(&t, &prefix) {
        return None;
    }
    let rest = slice_chars(&t, 5, t.len());
    let payload = trim_ws_chars(&rest);
    Some(string_from_chars(&payload))
}

/// Whether a payload is the end-of-stream marker `[DONE]`.
pub fn is_done_marker(payload: &str) -> (b: bool)
    ensures
        b == (payload@ == "[DONE]"@),
{
    crate::text::str_eq(payload, "[DONE]")
}

/// The texts among `parts` that are present and not empty, in order.
pub open spec fn present_texts(parts: Seq<Option<Seq<char>>>) -> Seq<Seq<char>>
    decreases parts.len(),
{
    if parts.len() == 0 {
        Seq::empty()
    } else {
        let rest = present_texts(parts.drop_last());
        match parts.last() {
            Some(t) => if t.len() > 0 { rest.push(t) } else { rest },
            None => rest,
        }
    }
}

/// The texts among `parts` that are present and not empty, in order.
pub fn non_empty_texts(parts: &Vec<Option<String>>) -> (r: Vec<String>)
    ensures
        r@.map_values(|s: String| s@) == present_texts(parts@.map_values(|o: Option<String>| crate::text::opt_view(o))),
{
    let ghost ps = parts@.map_values(|o: Option<String>| crate::text::opt_view(o));
    let mut out: Vec<String> = Vec::new();
    let mut i: usize = 0;
    while i < parts.len()
        invariant
            i <= parts.len(),
            ps == parts@.map_values(|o: Option<String>| crate::text::opt_view(o)),
            out@.map_values(|s: String| s@) == present_texts(ps.subrange(0, i as int)),
        decreases parts.len() - i,
    {
        let ghost prev = out@;
        assert(ps.subrange(0, i + 1).drop_last() =~= ps.subrange(0, i as int));
        assert(ps.subrange(0, i + 1).last() == ps[i as int]);
        match &parts[i] {
            Some(t) => {
                if !t.as_str().is_empty() {
                    out.push(t.clone());
                    assert(out@.map_values(|s: String| s@) =~= prev.map_values(|s: String| s@).push(t@));
                }
            },
            None => {},
        }
        i += 1;
    }
    assert(ps.subrange(0, parts.len() as int) =~= ps);
    out
}

/// Lines joined back with their line feeds, followed by what is pending,
/// give back everything received: taking a line loses nothing.
pub proof fn law_next_line_loses_nothing(s: Seq<char>)
    requires
        first_newline(s) is Some,
    ensures
        ({
            let p = first_newline(s)->0;
            s == s.subrange(0, p).push('\n') + s.subrange(p + 1, s.len() as int)
        }),
        forall|j: int| 0 <= j < first_newline(s)->0 ==> s[j] != '\n',
{
    let p = first_newline(s)->0;
    let w = choose|i: int| 0 <= i < s.len() && s[i] == '\n';
    assert(0 <= w < s.len() && s[w] == '\n');
    assert(exists|i: int| 0 <= i < s.len() && s[i] == '\n' && forall|j: int| 0 <= j < i ==> s[j] != '\n') by {
        lemma_first_newline_exists(s, w);
    }
    assert(s =~= s.subrange(0, p).push('\n') + s.subrange(p + 1, s.len() as int));
}

/// A line feed at `w` means there is a first one.
proof fn lemma_first_newline_exists(s: Seq<char>, w: int)
    requires
        0 <= w < s.len(),
        s[w] == '\n',
    ensures
        exists|i: int| 0 <= i < s.len() && s[i] == '\n' && forall|j: int| 0 <= j < i ==> s[j] != '\n',
    decreases w,
{
    if exists|j: int| 0 <= j < w && s[j] == '\n' {
        let j = choose|j: int| 0 <= j < w && s[j] == '\n';
        lemma_first_newline_exists(s, j);
    } else {
        assert(forall|j: int| 0 <= j < w ==> s[j] != '\n');
    }
}

} // verus!
