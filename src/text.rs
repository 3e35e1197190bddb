//! Byte-level model of a rope and the line and word queries made on it.

use vstd::prelude::*;
use xi_rope::Rope;
use xi_core_lib::word_boundaries::WordCursor;

verus! {

/// A text buffer: the rope that holds its bytes.
#[verifier::external_body]
pub struct Text {
    rope: Rope,
}

/// The UTF-8 bytes that a rope holds.
pub uninterp spec fn rope_bytes(t: Text) -> Seq<u8>;

/// The (start, end) that the word cursor selects around an offset.
pub uninterp spec fn word_bounds(b: Seq<u8>, offset: usize) -> (usize, usize);

/// Number of newline bytes in `b[0..o)`.
pub open spec fn newlines_before(b: Seq<u8>, o: int) -> nat
    decreases o,
{
    if o <= 0 {
        0
    } else {
        newlines_before(b, o - 1) + (if b[o - 1] == 10u8 { 1nat } else { 0nat })
    }
}

/// Number of newline bytes in the whole text.
pub open spec fn newline_count(b: Seq<u8>) -> nat {
    newlines_before(b, b.len() as int)
}

/// `p` is where line `l` begins (line `newline_count + 1` "begins" at the end).
pub open spec fn is_line_start(b: Seq<u8>, l: int, p: int) -> bool {
    if l == 0 {
        p == 0
    } else if l > newline_count(b) {
        p == b.len()
    } else {
        0 < p <= b.len() && b[p - 1] == 10u8 && newlines_before(b, p) == l
    }
}

/// The offset where line `l` begins.
pub open spec fn line_start(b: Seq<u8>, l: int) -> int {
    choose|p: int| is_line_start(b, l, p)
}

/// `offset` does not fall inside a multi-byte UTF-8 sequence.
pub open spec fn is_char_boundary(b: Seq<u8>, offset: int) -> bool {
    0 <= offset <= b.len() && (offset == b.len() || !(0x80u8 <= b[offset] && b[offset] < 0xC0u8))
}

pub proof fn lemma_newlines_monotone(b: Seq<u8>, p: int, q: int)
    requires
        0 <= p <= q <= b.len(),
    ensures
        newlines_before(b, p) <= newlines_before(b, q),
    decreases q - p,
{
    if p < q {
        lemma_newlines_monotone(b, p, q - 1);
    }
}

pub proof fn lemma_newlines_bounded(b: Seq<u8>, o: int)
    requires
        0 <= o <= b.len(),
    ensures
        newlines_before(b, o) <= o,
    decreases o,
{
    if o > 0 {
        lemma_newlines_bounded(b, o - 1);
    }
}

/// A line has one start.
pub proof fn lemma_line_start_unique(b: Seq<u8>, l: int, p: int, q: int)
    requires
        is_line_start(b, l, p),
        is_line_start(b, l, q),
    ensures
        p == q,
{
    if l > 0 && l <= newline_count(b) && p != q {
        let (lo, hi) = if p < q { (p, q) } else { (q, p) };
        lemma_newlines_monotone(b, lo, hi - 1);
    }
}

/// Any start that a line is known to have is `line_start`.
pub proof fn lemma_line_start_is(b: Seq<u8>, l: int, p: int)
    requires
        is_line_start(b, l, p),
    ensures
        line_start(b, l) == p,
{
    let c = line_start(b, l);
    assert(is_line_start(b, l, c));
    lemma_line_start_unique(b, l, p, c);
}

impl Text {
    /// Relies on `Rope::from(&str)`: a rope holding the string's bytes.
    #[verifier::external_body]
    pub fn from_str(s: &str) -> (r: Text)
        ensures
            rope_bytes(r) == vstd::utf8::encode_utf8(s@),
    {
        Text { rope: Rope::from(s) }
    }
}

/// Relies on `Rope::len`: the number of bytes held.
#[verifier::external_body]
pub(crate) fn text_len(text: &Text) -> (r: usize)
    ensures
        r == rope_bytes(*text).len(),
{
    text.rope.len()
}

/// Relies on `Rope::line_of_offset`: the count of newlines before `offset`;
/// it panics past the end.
#[verifier::external_body]
pub(crate) fn line_of_offset(text: &Text, offset: usize) -> (r: usize)
    requires
        offset <= rope_bytes(*text).len(),
    ensures
        r == newlines_before(rope_bytes(*text), offset as int),
{
    text.rope.line_of_offset(offset)
}

/// Relies on `Rope::offset_of_line`: the offset after the `line`-th newline,
/// the end of the text for one line past the last; it panics beyond that.
#[verifier::external_body]
pub(crate) fn offset_of_line(text: &Text, line: usize) -> (r: usize)
    requires
        line <= newline_count(rope_bytes(*text)) + 1,
    ensures
        is_line_start(rope_bytes(*text), line as int, r as int),
{
    text.rope.offset_of_line(line)
}

/// Relies on `WordCursor::new` and `WordCursor::select_word`: the bounds of
/// the word (or run between words) at `offset`. The start only moves back
/// from `offset` and the end only forward, within the text. Reading a
/// codepoint at an offset inside a UTF-8 sequence panics.
#[verifier::external_body]
pub(crate) fn select_word(text: &Text, offset: usize) -> (r: (usize, usize))
    requires
        is_char_boundary(rope_bytes(*text), offset as int),
    ensures
        r == word_bounds(rope_bytes(*text), offset),
        r.0 <= offset <= r.1 <= rope_bytes(*text).len(),
{
    let mut cursor = WordCursor::new(&text.rope, offset);
    cursor.select_word()
}

} // verus!
