//! Mathematical models of text: byte lengths, line counts and concatenation.

use vstd::prelude::*;
use vstd::utf8::{encode_scalar, encode_utf8, encode_utf8_decode_utf8};

verus! {

/// The number of bytes that `text` takes in UTF-8.
pub open spec fn utf8_len(text: Seq<char>) -> nat {
    encode_utf8(text).len()
}

/// The number of newline characters in `text`.
pub open spec fn newline_count(text: Seq<char>) -> nat
    decreases text.len(),
{
    if text.len() == 0 {
        0
    } else {
        newline_count(text.drop_last()) + if text.last() == '\n' {
            1nat
        } else {
            0nat
        }
    }
}

/// The encoding of a concatenation is the concatenation of the encodings.
pub proof fn lemma_encode_concat(a: Seq<char>, b: Seq<char>)
    ensures
        encode_utf8(a + b) == encode_utf8(a) + encode_utf8(b),
    decreases a.len(),
{
    if a.len() == 0 {
        assert(a + b == b);
        assert(encode_utf8(a) + encode_utf8(b) == encode_utf8(b));
    } else {
        lemma_encode_concat(a.drop_first(), b);
        assert((a + b).drop_first() == a.drop_first() + b);
        assert((a + b)[0] == a[0]);
        assert(encode_utf8(a + b) == encode_scalar(a[0] as u32) + (encode_utf8(a.drop_first())
            + encode_utf8(b)));
        assert(encode_utf8(a) + encode_utf8(b) == encode_scalar(a[0] as u32) + (encode_utf8(
            a.drop_first(),
        ) + encode_utf8(b)));
    }
}

/// Byte lengths add up under concatenation.
pub proof fn lemma_utf8_len_concat(a: Seq<char>, b: Seq<char>)
    ensures
        utf8_len(a + b) == utf8_len(a) + utf8_len(b),
{
    lemma_encode_concat(a, b);
}

/// Every character takes at least one byte.
pub proof fn lemma_len_le_utf8_len(text: Seq<char>)
    ensures
        text.len() <= utf8_len(text),
    decreases text.len(),
{
    if text.len() > 0 {
        lemma_len_le_utf8_len(text.drop_first());
    }
}

/// A text holds no more newlines than characters.
pub proof fn lemma_newline_count_le_len(text: Seq<char>)
    ensures
        newline_count(text) <= text.len(),
    decreases text.len(),
{
    if text.len() > 0 {
        lemma_newline_count_le_len(text.drop_last());
    }
}

/// Newline counts add up under concatenation.
pub proof fn lemma_newline_count_concat(a: Seq<char>, b: Seq<char>)
    ensures
        newline_count(a + b) == newline_count(a) + newline_count(b),
    decreases b.len(),
{
    if b.len() == 0 {
        assert(a + b == a);
    } else {
        lemma_newline_count_concat(a, b.drop_last());
        assert((a + b).drop_last() == a + b.drop_last());
    }
}

/// The texts of `pieces`, one after the other.
pub open spec fn joined(pieces: Seq<Seq<char>>) -> Seq<char>
    decreases pieces.len(),
{
    if pieces.len() == 0 {
        Seq::empty()
    } else {
        joined(pieces.drop_last()) + pieces.last()
    }
}

/// The sum of the byte lengths of `pieces`.
pub open spec fn total_len(pieces: Seq<Seq<char>>) -> nat
    decreases pieces.len(),
{
    if pieces.len() == 0 {
        0
    } else {
        total_len(pieces.drop_last()) + utf8_len(pieces.last())
    }
}

/// The sum of the newline counts of `pieces`.
pub open spec fn total_lines(pieces: Seq<Seq<char>>) -> nat
    decreases pieces.len(),
{
    if pieces.len() == 0 {
        0
    } else {
        total_lines(pieces.drop_last()) + newline_count(pieces.last())
    }
}

/// The pieces of a text are together as long as the text, and hold as many
/// newlines.
pub proof fn lemma_joined_totals(pieces: Seq<Seq<char>>)
    ensures
        utf8_len(joined(pieces)) == total_len(pieces),
        newline_count(joined(pieces)) == total_lines(pieces),
    decreases pieces.len(),
{
    if pieces.len() > 0 {
        lemma_joined_totals(pieces.drop_last());
        lemma_utf8_len_concat(joined(pieces.drop_last()), pieces.last());
        lemma_newline_count_concat(joined(pieces.drop_last()), pieces.last());
    }
}

/// The totals of the first `i` pieces are no more than the totals of all.
pub proof fn lemma_totals_monotonic(pieces: Seq<Seq<char>>, i: int)
    requires
        0 <= i <= pieces.len(),
    ensures
        total_len(pieces.take(i)) <= total_len(pieces),
        total_lines(pieces.take(i)) <= total_lines(pieces),
    decreases pieces.len(),
{
    if i == pieces.len() {
        assert(pieces.take(i) == pieces);
    } else {
        lemma_totals_monotonic(pieces.drop_last(), i);
        assert(pieces.drop_last().take(i) == pieces.take(i));
    }
}

/// The length of `text` in bytes.
pub fn byte_len(text: &str) -> (len: usize)
    ensures
        len == utf8_len(text@),
{
    text.as_bytes().len()
}

/// The characters of `text`, in order.
pub fn chars_of(text: &str) -> (chars: Vec<char>)
    ensures
        chars@ == text@,
{
    broadcast use vstd::string::group_string_axioms;

    let mut chars: Vec<char> = Vec::new();
    for c in it: text.chars()
        invariant
            it.seq() == text@,
            chars@ == text@.take(it.index()),
    {
        chars.push(c);
        assert(text@.take(it.index() + 1) == text@.take(it.index()).push(c));
    }
    assert(text@.take(text@.len() as int) == text@);
    chars
}

/// Decides whether two texts hold the same characters.
pub fn same_text(a: &str, b: &str) -> (same: bool)
    ensures
        same == (a@ == b@),
{
    let x = a.as_bytes();
    let y = b.as_bytes();
    proof {
        encode_utf8_decode_utf8(a@);
        encode_utf8_decode_utf8(b@);
    }
    if x.len() != y.len() {
        return false;
    }
    let mut i: usize = 0;
    while i < x.len()
        invariant
            i <= x.len(),
            x.len() == y.len(),
            x@ == encode_utf8(a@),
            y@ == encode_utf8(b@),
            forall|j: int| 0 <= j < i ==> x@[j] == y@[j],
        decreases x.len() - i,
    {
        if x[i] != y[i] {
            return false;
        }
        i = i + 1;
    }
    assert(x@ =~= y@);
    true
}

/// Counts the newline characters of `text`.
pub fn count_newlines(text: &str) -> (count: usize)
    ensures
        count == newline_count(text@),
{
    broadcast use vstd::string::group_string_axioms;

    // a text has no more characters than bytes, and its bytes are counted in
    // a usize: so the count fits too
    let _bytes = byte_len(text);
    proof {
        lemma_len_le_utf8_len(text@);
    }
    let mut count: usize = 0;
    for c in it: text.chars()
        invariant
            it.seq() == text@,
            count == newline_count(text@.take(it.index())),
            count <= it.index(),
            text@.len() <= usize::MAX,
    {
        assert(text@.take(it.index() + 1).drop_last() == text@.take(it.index()));
        if c == '\n' {
            count = count + 1;
        }
    }
    assert(text@.take(text@.len() as int) == text@);
    count
}

} // verus!
