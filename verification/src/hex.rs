//! Lowercase hexadecimal encoding.

use vstd::prelude::*;
use crate::text::push_char;

verus! {

/// The lowercase hexadecimal digit of `v` (below 16).
pub open spec fn hex_digit(v: u8) -> char {
    if v < 10 {
        ((v + 48) as u8) as char
    } else {
        ((v + 87) as u8) as char
    }
}

/// The lowercase hexadecimal text of `bytes`: two digits per byte, high
/// nibble first.
pub open spec fn hex_text(bytes: Seq<u8>) -> Seq<char>
    decreases bytes.len(),
{
    if bytes.len() == 0 {
        Seq::empty()
    } else {
        let b = bytes.last();
        hex_text(bytes.drop_last()) + seq![hex_digit(b / 16), hex_digit(b % 16)]
    }
}

/// Whether `c` is a lowercase hexadecimal digit.
pub open spec fn is_lower_hex_digit(c: char) -> bool {
    ('0' <= c && c <= '9') || ('a' <= c && c <= 'f')
}

/// Exec form of [`hex_digit`].
pub fn hex_digit_char(v: u8) -> (c: char)
    requires
        v < 16,
    ensures
        c == hex_digit(v),
{
    if v < 10 {
        (v + 48) as char
    } else {
        (v + 87) as char
    }
}

/// Encodes `bytes` as lowercase hexadecimal, two digits per byte.
pub fn hex_encode(bytes: &[u8]) -> (s: String)
    ensures
        s@ == hex_text(bytes@),
{
    let mut s = String::new();
    let mut i: usize = 0;
    while i < bytes.len()
        invariant
            i <= bytes@.len(),
            s@ == hex_text(bytes@.take(i as int)),
        decreases bytes.len() - i,
    {
        let b = bytes[i];
        push_char(&mut s, hex_digit_char(b / 16));
        push_char(&mut s, hex_digit_char(b % 16));
        assert(bytes@.take(i + 1).drop_last() == bytes@.take(i as int));
        i += 1;
    }
    assert(bytes@.take(bytes@.len() as int) == bytes@);
    s
}

/// The encoding has two characters per byte, each a lowercase hex digit.
pub proof fn law_hex_text_shape(bytes: Seq<u8>)
    ensures
        hex_text(bytes).len() == 2 * bytes.len(),
        forall|i: int| 0 <= i < hex_text(bytes).len() ==> is_lower_hex_digit(#[trigger] hex_text(bytes)[i]),
    decreases bytes.len(),
{
    if bytes.len() > 0 {
        law_hex_text_shape(bytes.drop_last());
        let b = bytes.last();
        let t = hex_text(bytes);
        let h = hex_text(bytes.drop_last());
        assert forall|i: int| 0 <= i < t.len() implies is_lower_hex_digit(#[trigger] t[i]) by {
            if i < h.len() {
                assert(t[i] == h[i]);
            } else {
                assert(b / 16 < 16 && b % 16 < 16);
            }
        }
    }
}

/// Distinct digit values below 16 have distinct digits.
proof fn lemma_hex_digit_injective(v: u8, w: u8)
    requires
        v < 16,
        w < 16,
        hex_digit(v) == hex_digit(w),
    ensures
        v == w,
{
    assert((hex_digit(v) as u32) == if v < 10 { v + 48 } else { v + 87 });
    assert((hex_digit(w) as u32) == if w < 10 { w + 48 } else { w + 87 });
}

/// The encoding loses nothing: two byte sequences with the same hex text
/// are the same bytes.
pub proof fn law_hex_text_injective(a: Seq<u8>, b: Seq<u8>)
    requires
        hex_text(a) == hex_text(b),
    ensures
        a == b,
    decreases a.len(),
{
    law_hex_text_shape(a);
    law_hex_text_shape(b);
    if a.len() > 0 {
        let ha = hex_text(a.drop_last());
        let hb = hex_text(b.drop_last());
        law_hex_text_shape(a.drop_last());
        law_hex_text_shape(b.drop_last());
        let t = hex_text(a);
        assert(t == ha + seq![hex_digit(a.last() / 16), hex_digit(a.last() % 16)]);
        assert(t == hb + seq![hex_digit(b.last() / 16), hex_digit(b.last() % 16)]);
        assert(ha =~= t.subrange(0, t.len() - 2));
        assert(hb =~= t.subrange(0, t.len() - 2));
        law_hex_text_injective(a.drop_last(), b.drop_last());
        assert(t[t.len() - 2] == hex_digit(a.last() / 16));
        assert(t[t.len() - 2] == hex_digit(b.last() / 16));
        assert(t[t.len() - 1] == hex_digit(a.last() % 16));
        assert(t[t.len() - 1] == hex_digit(b.last() % 16));
        lemma_hex_digit_injective(a.last() / 16, b.last() / 16);
        lemma_hex_digit_injective(a.last() % 16, b.last() % 16);
        assert(a.last() == b.last());
        assert(a =~= a.drop_last().push(a.last()));
        assert(b =~= b.drop_last().push(b.last()));
    }
}

} // verus!
