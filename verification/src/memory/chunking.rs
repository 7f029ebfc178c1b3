//! Chunk splitter for captured visible text.
//!
//! Token counts are estimated as `chars / 4`, rounded up, with a floor of one.

use vstd::prelude::*;
use crate::text::chars_of;

verus! {

pub const MAX_CHUNK_TOKENS: usize = 512;
pub const CHUNK_OVERLAP_TOKENS: usize = 50;
pub const MIN_CHUNK_TOKENS: usize = 50;
pub const CHARS_PER_TOKEN: usize = 4;

/// Longest chunk, in characters, before the tail merge (`MAX_CHUNK_TOKENS * CHARS_PER_TOKEN`).
pub open spec fn max_chunk_chars() -> nat {
    2048
}

/// Characters shared by two consecutive chunks (`CHUNK_OVERLAP_TOKENS * CHARS_PER_TOKEN`).
pub open spec fn overlap_chars() -> nat {
    200
}

/// A trailing chunk shorter than this is merged into its predecessor
/// (`MIN_CHUNK_TOKENS * CHARS_PER_TOKEN`).
pub open spec fn min_chunk_chars() -> nat {
    200
}

/// Estimated token count of a text of `n` characters: `ceil(n / 4)`, at least 1.
pub open spec fn token_estimate(n: nat) -> nat {
    if n == 0 {
        1
    } else {
        ((n + 3) / 4) as nat
    }
}

/// Where a window that starts at `start` ends.
pub open spec fn window_end(len: nat, start: nat) -> nat {
    if start + max_chunk_chars() < len {
        start + max_chunk_chars()
    } else {
        len
    }
}

/// The fixed-size, overlapping windows of `c` from `start` on.
pub open spec fn raw_chunks(c: Seq<char>, start: nat) -> Seq<Seq<char>>
    decreases c.len() - start,
{
    let end = window_end(c.len(), start);
    if end >= c.len() {
        seq![c.subrange(start as int, c.len() as int)]
    } else {
        seq![c.subrange(start as int, end as int)] + raw_chunks(c, (end - overlap_chars()) as nat)
    }
}

/// Merges a too-short trailing chunk into its predecessor.
pub open spec fn merge_short_tail(cs: Seq<Seq<char>>) -> Seq<Seq<char>> {
    if cs.len() > 1 && cs.last().len() < min_chunk_chars() {
        let prev = cs[cs.len() - 2];
        cs.drop_last().update(cs.len() - 2, prev + cs.last())
    } else {
        cs
    }
}

/// The chunks `chunk_text` produces for a text.
pub open spec fn chunks_of(c: Seq<char>) -> Seq<Seq<char>> {
    if c.len() <= max_chunk_chars() {
        seq![c]
    } else {
        merge_short_tail(raw_chunks(c, 0))
    }
}

/// Estimates the token count of `text` as its character count divided by
/// four, rounded up, and never less than one.
pub fn estimate_tokens(text: &str) -> (r: usize)
    ensures
        r == token_estimate(text@.len()),
{
    let n = text.unicode_len();
    if n == 0 {
        1
    } else {
        n / CHARS_PER_TOKEN + if n % CHARS_PER_TOKEN == 0 { 0 } else { 1 }
    }
}

/// Builds a `String` holding `c[from..to]`.
fn string_of_range(c: &Vec<char>, from: usize, to: usize) -> (s: String)
    requires
        from <= to <= c.len(),
    ensures
        s@ == c@.subrange(from as int, to as int),
{
    let mut s = String::new();
    let mut i = from;
    while i < to
        invariant
            from <= i <= to <= c.len(),
            s@ == c@.subrange(from as int, i as int),
        decreases to - i,
    {
        crate::text::push_char(&mut s, c[i]);
        assert(c@.subrange(from as int, i + 1) == c@.subrange(from as int, i as int).push(c@[i as int]));
        i += 1;
    }
    s
}

/// Splits `text` into chunks of at most `MAX_CHUNK_TOKENS` estimated tokens,
/// consecutive chunks overlapping by `CHUNK_OVERLAP_TOKENS`. A trailing chunk
/// under `MIN_CHUNK_TOKENS` is merged into its predecessor rather than kept on
/// its own.
pub fn chunk_text(text: &str) -> (chunks: Vec<String>)
    ensures
        chunks@.len() == chunks_of(text@).len(),
        forall|i: int| 0 <= i < chunks@.len() ==> #[trigger] chunks@[i]@ == chunks_of(text@)[i],
{
    let chars = chars_of(text);
    let max_chars = MAX_CHUNK_TOKENS * CHARS_PER_TOKEN;
    let overlap = CHUNK_OVERLAP_TOKENS * CHARS_PER_TOKEN;
    let min_chars = MIN_CHUNK_TOKENS * CHARS_PER_TOKEN;
    let n = chars.len();
    if n <= max_chars {
        let mut one: Vec<String> = Vec::new();
        one.push(string_of_range(&chars, 0, n));
        assert(chars@.subrange(0, n as int) == chars@);
        return one;
    }
    let ghost c = chars@;
    let mut chunks: Vec<String> = Vec::new();
    let ghost mut done: Seq<Seq<char>> = Seq::empty();
    let mut start: usize = 0;
    loop
        invariant_except_break
            c == chars@,
            c == text@,
            n == c.len(),
            n > max_chars,
            max_chars == max_chunk_chars(),
            overlap == overlap_chars(),
            start < n,
            chunks@.len() == done.len(),
            (start == 0) == (done.len() == 0),
            forall|i: int| 0 <= i < done.len() ==> #[trigger] chunks@[i]@ == done[i],
            done + raw_chunks(c, start as nat) == raw_chunks(c, 0),
        ensures
            c == text@,
            chunks@.len() == done.len(),
            forall|i: int| 0 <= i < done.len() ==> #[trigger] chunks@[i]@ == done[i],
            done == raw_chunks(c, 0),
            done.len() > 1,
        decreases n - start,
    {
        let end = if start < n - max_chars { start + max_chars } else { n };
        let piece = string_of_range(&chars, start, end);
        chunks.push(piece);
        proof {
            done = done.push(c.subrange(start as int, end as int));
        }
        if end == n {
            proof {
                assert(raw_chunks(c, start as nat) == seq![c.subrange(start as int, n as int)]);
                assert(done == raw_chunks(c, 0));
                if start == 0 {
                    assert(window_end(n as nat, 0) < n);
                }
                assert(done.len() > 1);
            }
            break;
        }
        proof {
            let rest = raw_chunks(c, (end - overlap) as nat);
            assert(raw_chunks(c, start as nat) == seq![c.subrange(start as int, end as int)] + rest);
            assert(done + rest == (done.drop_last() + raw_chunks(c, start as nat)));
        }
        start = end - overlap;
    }
    let count = chunks.len();
    let last_len = chunks[count - 1].as_str().unicode_len();
    if last_len < min_chars {
        let last = chunks.pop().unwrap();
        let prev = chunks.pop().unwrap();
        let merged = prev.concat(last.as_str());
        chunks.push(merged);
        proof {
            assert(merge_short_tail(done) == done.drop_last().update(done.len() - 2, done[done.len() - 2] + done.last()));
        }
    }
    chunks
}


/// Distance between the starts of two consecutive windows (`max_chunk_chars() - overlap_chars()`).
pub open spec fn stride() -> int {
    1848
}

/// Start of window `i` among the windows that begin at `s`.
pub open spec fn window_start(s: nat, i: int) -> int {
    s + 1848 * i
}

/// Window `i` of `raw_chunks(c, s)` is `c[s + stride*i .. window_end]`; every
/// window but the last ends before the text does, and the last reaches it.
proof fn lemma_raw_chunks_shape(c: Seq<char>, s: nat)
    requires
        s < c.len(),
    ensures
        raw_chunks(c, s).len() >= 1,
        forall|i: int|
            0 <= i < raw_chunks(c, s).len() ==> #[trigger] raw_chunks(c, s)[i] == c.subrange(
                window_start(s, i),
                window_end(c.len(), window_start(s, i) as nat) as int,
            ),
        forall|i: int|
            0 <= i < raw_chunks(c, s).len() - 1 ==> #[trigger] window_start(s, i) + max_chunk_chars() < c.len(),
        window_start(s, raw_chunks(c, s).len() - 1) + max_chunk_chars() >= c.len(),
        window_start(s, raw_chunks(c, s).len() - 1) < c.len(),
    decreases c.len() - s,
{
    let end = window_end(c.len(), s);
    if end < c.len() {
        let next = (end - overlap_chars()) as nat;
        lemma_raw_chunks_shape(c, next);
        let rest = raw_chunks(c, next);
        assert(raw_chunks(c, s) == seq![c.subrange(s as int, end as int)] + rest);
        assert forall|i: int| 0 <= i < raw_chunks(c, s).len() implies #[trigger] raw_chunks(c, s)[i]
            == c.subrange(window_start(s, i), window_end(c.len(), window_start(s, i) as nat) as int) by {
            if i > 0 {
                assert(raw_chunks(c, s)[i] == rest[i - 1]);
                assert(window_start(next, i - 1) == window_start(s, i));
            }
        }
        assert forall|i: int| 0 <= i < raw_chunks(c, s).len() - 1 implies #[trigger] window_start(s, i)
            + max_chunk_chars() < c.len() by {
            if i > 0 {
                assert(window_start(next, i - 1) == window_start(s, i));
            }
        }
        assert(window_start(next, rest.len() - 1) == window_start(s, raw_chunks(c, s).len() - 1));
    }
}

/// A text of at most `MAX_CHUNK_TOKENS * CHARS_PER_TOKEN` characters stays a
/// single chunk, unchanged.
pub proof fn law_short_text_is_one_chunk(c: Seq<char>)
    requires
        c.len() <= max_chunk_chars(),
    ensures
        chunks_of(c) == seq![c],
{
}

/// Every chunk but the last holds exactly `MAX_CHUNK_TOKENS * CHARS_PER_TOKEN`
/// characters and the last at most that many; when the text takes more
/// than one chunk, the last holds more than `MIN_CHUNK_TOKENS *
/// CHARS_PER_TOKEN` characters (so no short tail is ever left over), and no
/// chunk is empty unless the text is.
pub proof fn law_chunk_sizes(c: Seq<char>)
    ensures
        chunks_of(c).len() >= 1,
        forall|i: int| 0 <= i < chunks_of(c).len() - 1 ==> #[trigger] chunks_of(c)[i].len() == max_chunk_chars(),
        chunks_of(c).last().len() <= max_chunk_chars(),
        chunks_of(c).len() > 1 ==> chunks_of(c).last().len() > min_chunk_chars(),
        c.len() > 0 ==> forall|i: int| 0 <= i < chunks_of(c).len() ==> #[trigger] chunks_of(c)[i].len() > 0,
{
    if c.len() > max_chunk_chars() {
        lemma_raw_chunks_shape(c, 0);
        let raw = raw_chunks(c, 0);
        assert forall|i: int| 0 <= i < raw.len() - 1 implies #[trigger] raw[i].len() == max_chunk_chars() by {
            assert(raw[i] == c.subrange(window_start(0, i), window_end(c.len(), window_start(0, i) as nat) as int));
        }
        let k = raw.len() - 1;
        assert(raw[k] == c.subrange(window_start(0, k), window_end(c.len(), window_start(0, k) as nat) as int));
        assert(raw.len() >= 2) by {
            if raw.len() == 1 {
                assert(window_end(c.len(), 0) == max_chunk_chars());
            }
        }
        assert(window_start(0, k - 1) + max_chunk_chars() < c.len());
        assert(raw[k].len() > min_chunk_chars());
        assert forall|i: int| 0 <= i < raw.len() implies #[trigger] raw[i].len() > 0 by {
            assert(raw[i] == c.subrange(window_start(0, i), window_end(c.len(), window_start(0, i) as nat) as int));
        }
        assert(chunks_of(c) == raw);
    }
}

/// Consecutive chunks overlap: each chunk ends with the
/// `CHUNK_OVERLAP_TOKENS * CHARS_PER_TOKEN` characters its successor begins with.
pub proof fn law_consecutive_chunks_overlap(c: Seq<char>, i: int)
    requires
        0 <= i < chunks_of(c).len() - 1,
    ensures
        chunks_of(c)[i].len() >= overlap_chars(),
        chunks_of(c)[i + 1].len() >= overlap_chars(),
        chunks_of(c)[i].subrange(chunks_of(c)[i].len() - overlap_chars(), chunks_of(c)[i].len() as int)
            == chunks_of(c)[i + 1].subrange(0, overlap_chars() as int),
{
    lemma_raw_chunks_shape(c, 0);
    let raw = raw_chunks(c, 0);
    let out = chunks_of(c);
    let a = window_start(0, i);
    let b = window_start(0, i + 1);
    assert(raw[i] == c.subrange(a, window_end(c.len(), a as nat) as int));
    assert(raw[i + 1] == c.subrange(b, window_end(c.len(), b as nat) as int));
    assert(window_start(0, i) + max_chunk_chars() < c.len());
    assert(raw[i + 1].len() >= overlap_chars()) by {
        if i + 1 < raw.len() - 1 {
            assert(window_start(0, i + 1) + max_chunk_chars() < c.len());
        } else {
            if raw.last().len() < min_chunk_chars() {
                assert(out.len() == raw.len() - 1);
                assert(false);
            }
        }
    }
    let head = raw[i + 1].subrange(0, overlap_chars() as int);
    assert(head == c.subrange(b, b + overlap_chars()));
    assert(raw[i].subrange(raw[i].len() - overlap_chars(), raw[i].len() as int) == c.subrange(b, b + overlap_chars()));
    if raw.last().len() < min_chunk_chars() {
        assert(out == raw.drop_last().update(raw.len() - 2, raw[raw.len() - 2] + raw.last()));
        assert(out[i] == raw[i]);
        if i + 1 == out.len() - 1 {
            assert(out[i + 1] == raw[i + 1] + raw.last());
            assert(out[i + 1].subrange(0, overlap_chars() as int) == head);
        } else {
            assert(out[i + 1] == raw[i + 1]);
        }
    }
}

/// The chunks span the text: the first begins it and the last ends it.
pub proof fn law_chunks_span_text(c: Seq<char>)
    ensures
        c.len() <= max_chunk_chars() ==> chunks_of(c)[0] == c,
        c.len() > max_chunk_chars() ==> c.subrange(0, max_chunk_chars() as int) == chunks_of(c)[0]
            && crate::text::ends_with(chunks_of(c).last(), c.subrange(c.len() - min_chunk_chars(), c.len() as int)),
{
    if c.len() > max_chunk_chars() {
        lemma_raw_chunks_shape(c, 0);
        law_chunk_sizes(c);
        let raw = raw_chunks(c, 0);
        let out = chunks_of(c);
        let k = raw.len() - 1;
        let a = window_start(0, k);
        assert(raw[0] == c.subrange(0, window_end(c.len(), 0) as int));
        assert(raw[k] == c.subrange(a, c.len() as int));
        assert(raw.len() >= 2) by {
            if raw.len() == 1 {
                assert(window_end(c.len(), 0) == max_chunk_chars());
            }
        }
        assert(window_start(0, k - 1) + max_chunk_chars() < c.len());
        assert(c.len() - a >= min_chunk_chars());
        if raw.last().len() < min_chunk_chars() {
            assert(out == raw.drop_last().update(raw.len() - 2, raw[raw.len() - 2] + raw.last()));
            let m = out.last();
            assert(m == raw[k - 1] + raw[k]);
            assert(m.subrange(m.len() - min_chunk_chars(), m.len() as int) =~= c.subrange(c.len() - min_chunk_chars(), c.len() as int));
            assert(out[0] == raw[0]);
        } else {
            let m = out.last();
            assert(m.subrange(m.len() - min_chunk_chars(), m.len() as int) =~= c.subrange(c.len() - min_chunk_chars(), c.len() as int));
        }
    }
}

} // verus!
