//! Texts as character sequences, and what the standard library's text
//! functions return of them.

use vstd::prelude::*;
use vstd::utf8::*;

verus! {

/// The texts that a sequence of strings holds.
pub open spec fn views(strings: Seq<String>) -> Seq<Seq<char>> {
    Seq::new(strings.len(), |i: int| strings[i]@)
}

/// Whether `c` has the Unicode property White_Space, as `char::is_whitespace`
/// reports it.
pub uninterp spec fn white_space(c: char) -> bool;

/// The number of white-space characters at the start of `s`.
pub open spec fn leading_white_space(s: Seq<char>) -> nat
    decreases s.len(),
{
    if s.len() > 0 && white_space(s[0]) {
        1 + leading_white_space(s.drop_first())
    } else {
        0
    }
}

/// The number of white-space characters at the end of `s`.
pub open spec fn trailing_white_space(s: Seq<char>) -> nat
    decreases s.len(),
{
    if s.len() > 0 && white_space(s.last()) {
        1 + trailing_white_space(s.drop_last())
    } else {
        0
    }
}

/// `s` without the white space at its start and at its end.
pub open spec fn trimmed(s: Seq<char>) -> Seq<char> {
    if leading_white_space(s) == s.len() {
        Seq::empty()
    } else {
        s.subrange(leading_white_space(s) as int, s.len() - trailing_white_space(s))
    }
}

/// The white space counted at the start of a text is white space, and the
/// character after it, if there is one, is not.
pub proof fn lemma_leading_white_space(s: Seq<char>)
    ensures
        leading_white_space(s) <= s.len(),
        forall|i: int| 0 <= i < leading_white_space(s) ==> white_space(#[trigger] s[i]),
        leading_white_space(s) < s.len() ==> !white_space(s[leading_white_space(s) as int]),
    decreases s.len(),
{
    if s.len() > 0 && white_space(s[0]) {
        let rest = s.drop_first();
        lemma_leading_white_space(rest);
        assert forall|i: int| 0 <= i < leading_white_space(s) implies white_space(
            #[trigger] s[i],
        ) by {
            if i > 0 {
                assert(s[i] == rest[i - 1]);
            }
        }
    }
}

/// The white space counted at the end of a text is white space, and the
/// character before it, if there is one, is not.
pub proof fn lemma_trailing_white_space(s: Seq<char>)
    ensures
        trailing_white_space(s) <= s.len(),
        forall|i: int|
            s.len() - trailing_white_space(s) <= i < s.len() ==> white_space(#[trigger] s[i]),
        trailing_white_space(s) < s.len() ==> !white_space(
            s[s.len() - trailing_white_space(s) - 1],
        ),
    decreases s.len(),
{
    if s.len() > 0 && white_space(s.last()) {
        let rest = s.drop_last();
        lemma_trailing_white_space(rest);
        assert forall|i: int|
            s.len() - trailing_white_space(s) <= i < s.len() implies white_space(
            #[trigger] s[i],
        ) by {
            if i < s.len() - 1 {
                assert(s[i] == rest[i]);
            }
        }
    }
}

/// A trimmed text is a part of the text, with white space only before and
/// after it; where it is not empty, it begins and ends with a character that
/// is no white space.
pub proof fn lemma_trimmed(s: Seq<char>)
    ensures
        leading_white_space(s) + trimmed(s).len() <= s.len(),
        trimmed(s) == s.subrange(
            leading_white_space(s) as int,
            (leading_white_space(s) + trimmed(s).len()) as int,
        ),
        forall|i: int| 0 <= i < leading_white_space(s) ==> white_space(#[trigger] s[i]),
        forall|i: int|
            leading_white_space(s) + trimmed(s).len() <= i < s.len() ==> white_space(
                #[trigger] s[i],
            ),
        trimmed(s).len() > 0 ==> !white_space(trimmed(s).first()) && !white_space(
            trimmed(s).last(),
        ),
{
    lemma_leading_white_space(s);
    lemma_trailing_white_space(s);
    if leading_white_space(s) == s.len() {
        assert(trimmed(s) =~= s.subrange(s.len() as int, s.len() as int));
    }
}

/// `c` in lower case where it is an ASCII capital, and `c` itself otherwise.
pub open spec fn ascii_lower(c: char) -> char {
    if 'A' <= c <= 'Z' {
        ((c as u32) + 32) as char
    } else {
        c
    }
}

/// `s` with each ASCII capital in lower case.
pub open spec fn ascii_lowercase(s: Seq<char>) -> Seq<char> {
    Seq::new(s.len(), |i: int| ascii_lower(s[i]))
}

/// Whether `a` and `b` are the same text but for the case of ASCII letters.
pub open spec fn same_ignoring_ascii_case(a: Seq<char>, b: Seq<char>) -> bool {
    ascii_lowercase(a) == ascii_lowercase(b)
}

/// The text that `String::from_utf8_lossy` makes of `bytes`: the text they
/// encode, with U+FFFD in place of each part that is not valid UTF-8.
pub uninterp spec fn lossy_text(bytes: Seq<u8>) -> Seq<char>;

/// Calls `str::trim`. The result is the argument without its leading and
/// trailing characters that have the property White_Space, so that a result
/// that is not empty begins and ends with a character that has it not.
#[verifier::external_body]
pub(crate) fn trim(s: &str) -> (r: &str)
    ensures
        r@ == trimmed(s@),
        r@.len() > 0 ==> !white_space(r@.first()) && !white_space(r@.last()),
{
    s.trim()
}

/// Calls `str::eq_ignore_ascii_case`. The result says whether the two
/// arguments are equal once each ASCII capital is put in lower case.
#[verifier::external_body]
pub(crate) fn eq_ignore_ascii_case(a: &str, b: &str) -> (r: bool)
    ensures
        r == same_ignoring_ascii_case(a@, b@),
{
    a.eq_ignore_ascii_case(b)
}

/// Calls `String::from_utf8_lossy` and takes the result as an owned string.
/// Valid UTF-8 is decoded as it stands; of other input the contract only
/// names the result.
#[verifier::external_body]
pub(crate) fn from_utf8_lossy(bytes: &[u8]) -> (r: String)
    ensures
        r@ == lossy_text(bytes@),
        valid_utf8(bytes@) ==> r@ == decode_utf8(bytes@),
{
    String::from_utf8_lossy(bytes).into_owned()
}

} // verus!
