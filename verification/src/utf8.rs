//! Whole-character prefixes of UTF-8 text that fit a byte budget.

use vstd::prelude::*;
use vstd::utf8::*;

verus! {

/// The number of bytes that `text` takes in UTF-8.
pub open spec fn byte_len(text: Seq<char>) -> nat {
    encode_utf8(text).len()
}

/// The number of bytes that the character `c` takes in UTF-8.
pub open spec fn char_width(c: char) -> nat {
    encode_scalar(c as u32).len()
}

/// How many leading characters of `text` fit, whole, into `limit` bytes.
pub open spec fn fitting_chars(text: Seq<char>, limit: int) -> nat
    decreases text.len(),
{
    if text.len() == 0 || char_width(text[0]) > limit {
        0
    } else {
        1 + fitting_chars(text.drop_first(), limit - char_width(text[0]))
    }
}

/// The longest prefix of `text`, made of whole characters, that takes at most
/// `limit` bytes.
pub open spec fn fitting_prefix(text: Seq<char>, limit: int) -> Seq<char> {
    text.take(fitting_chars(text, limit) as int)
}

/// Every character takes between one and four bytes.
pub proof fn lemma_char_width(c: char)
    ensures
        1 <= char_width(c) <= 4,
{
}

/// The encoding of a text is the encoding of its first character followed by
/// the encoding of the rest.
pub proof fn lemma_encode_first(text: Seq<char>)
    requires
        text.len() > 0,
    ensures
        encode_utf8(text) == encode_scalar(text[0] as u32) + encode_utf8(text.drop_first()),
        byte_len(text) == char_width(text[0]) + byte_len(text.drop_first()),
{
}

/// The encoding of two texts joined is their encodings joined.
pub proof fn lemma_encode_concat(a: Seq<char>, b: Seq<char>)
    ensures
        encode_utf8(a + b) == encode_utf8(a) + encode_utf8(b),
        byte_len(a + b) == byte_len(a) + byte_len(b),
    decreases a.len(),
{
    if a.len() == 0 {
    } else {
        lemma_encode_concat(a.drop_first(), b);
        assert((a + b).drop_first() =~= a.drop_first() + b);
    }
}

/// ASCII text takes one byte for each character.
pub proof fn lemma_ascii_byte_len(text: Seq<char>)
    requires
        is_ascii_chars(text),
    ensures
        byte_len(text) == text.len(),
{
    is_ascii_chars_encode_utf8(text);
}

/// No more characters fit than the text has.
pub proof fn lemma_fitting_chars_bound(text: Seq<char>, limit: int)
    ensures
        fitting_chars(text, limit) <= text.len(),
    decreases text.len(),
{
    if text.len() == 0 || char_width(text[0]) > limit {
    } else {
        lemma_fitting_chars_bound(text.drop_first(), limit - char_width(text[0]));
    }
}

/// The prefix that fits is itself a prefix of the encoding, ends where a
/// character ends, and no later end of a character lies within the limit.
pub proof fn lemma_fitting_prefix(text: Seq<char>, limit: int)
    requires
        0 <= limit,
    ensures
        byte_len(fitting_prefix(text, limit)) <= limit,
        byte_len(fitting_prefix(text, limit)) <= byte_len(text),
        encode_utf8(text).subrange(0, byte_len(fitting_prefix(text, limit)) as int)
            == encode_utf8(fitting_prefix(text, limit)),
        is_char_boundary(encode_utf8(text), byte_len(fitting_prefix(text, limit)) as int),
        forall|j: int|
            byte_len(fitting_prefix(text, limit)) < j <= limit ==> !is_char_boundary(
                encode_utf8(text),
                j,
            ),
    decreases text.len(),
{
    broadcast use encode_utf8_valid_utf8;

    let bytes = encode_utf8(text);
    let kept = fitting_prefix(text, limit);
    if text.len() == 0 {
        assert forall|j: int| 0 < j <= limit implies !is_char_boundary(bytes, j) by {}
    } else {
        let width = char_width(text[0]) as int;
        let rest = text.drop_first();
        let tail = encode_utf8(rest);
        lemma_char_width(text[0]);
        encode_utf8_first_scalar(text);
        assert(pop_first_scalar(bytes) =~= tail);
        if width > limit {
            assert forall|j: int| 0 < j <= limit implies !is_char_boundary(bytes, j) by {
                if j <= bytes.len() {
                    assert(!is_char_boundary(tail, j - width));
                }
            }
        } else {
            let budget = limit - width;
            lemma_fitting_prefix(rest, budget);
            lemma_fitting_chars_bound(rest, budget);
            assert(kept.drop_first() =~= fitting_prefix(rest, budget));
            lemma_encode_first(kept);
            let end = byte_len(kept) as int;
            assert forall|j: int| end < j <= limit implies !is_char_boundary(bytes, j) by {
                if j <= bytes.len() {
                    assert(is_char_boundary(bytes, j) == is_char_boundary(tail, j - width));
                }
            }
        }
    }
}

/// A prefix of whole characters that fits is no longer than the one kept.
pub proof fn lemma_fitting_chars_at_least(text: Seq<char>, n: int, limit: int)
    requires
        0 <= n <= text.len(),
        byte_len(text.take(n)) <= limit,
    ensures
        n <= fitting_chars(text, limit),
    decreases text.len(),
{
    if n > 0 {
        let head = text.take(n);
        lemma_encode_first(head);
        assert(head.drop_first() =~= text.drop_first().take(n - 1));
        lemma_fitting_chars_at_least(text.drop_first(), n - 1, limit - char_width(text[0]));
    }
}

/// A text that fits is kept whole.
pub proof fn lemma_fitting_prefix_whole(text: Seq<char>, limit: int)
    requires
        byte_len(text) <= limit,
    ensures
        fitting_prefix(text, limit) == text,
    decreases text.len(),
{
    if text.len() > 0 {
        lemma_encode_first(text);
        lemma_fitting_prefix_whole(text.drop_first(), limit - char_width(text[0]));
        lemma_fitting_chars_bound(text.drop_first(), limit - char_width(text[0]));
    }
}

/// Where the text does not fit, the character after the prefix would pass the
/// limit: fewer than four bytes of the budget stay unused.
pub proof fn lemma_fitting_prefix_longest(text: Seq<char>, limit: int)
    requires
        0 <= limit < byte_len(text),
    ensures
        fitting_chars(text, limit) < text.len(),
        byte_len(fitting_prefix(text, limit)) + char_width(text[fitting_chars(text, limit) as int])
            > limit,
        limit - 4 < byte_len(fitting_prefix(text, limit)),
    decreases text.len(),
{
    let width = char_width(text[0]) as int;
    let rest = text.drop_first();
    lemma_char_width(text[0]);
    lemma_encode_first(text);
    if width <= limit {
        lemma_fitting_prefix_longest(rest, limit - width);
        lemma_fitting_chars_bound(rest, limit - width);
        let kept = fitting_prefix(text, limit);
        assert(kept.drop_first() =~= fitting_prefix(rest, limit - width));
        lemma_encode_first(kept);
        lemma_char_width(text[fitting_chars(text, limit) as int]);
    }
}

/// The number of bytes of `s`.
pub fn byte_length(s: &str) -> (n: usize)
    ensures
        n == byte_len(s@),
{
    s.as_bytes().len()
}

/// The longest prefix of `s`, made of whole characters, that takes at most
/// `limit` bytes.
pub fn fitting_str(s: &str, limit: usize) -> (r: &str)
    ensures
        r@ == fitting_prefix(s@, limit as int),
{
    broadcast use encode_utf8_valid_utf8, encode_utf8_decode_utf8;

    let len = byte_length(s);
    if len <= limit {
        proof {
            lemma_fitting_prefix_whole(s@, limit as int);
        }
        return s;
    }
    let mut end = limit;
    while !s.is_char_boundary(end)
        invariant
            end <= limit,
            valid_utf8(encode_utf8(s@)),
            forall|j: int| end < j <= limit ==> !is_char_boundary(encode_utf8(s@), j),
        decreases end,
    {
        end = end - 1;
    }
    proof {
        lemma_fitting_prefix(s@, limit as int);
    }
    let (head, _) = s.split_at(end);
    assert(decode_utf8(encode_utf8(head@)) == head@);
    head
}

} // verus!
