//! Reading the words of the provider's vocabulary off the wire.

use vstd::prelude::*;

verus! {

/// A character with the upper-case ASCII letters folded onto the lower-case
/// ones; every other character is itself.
pub open spec fn ascii_lower(c: char) -> char {
    if 'A' <= c && c <= 'Z' {
        ((c as u8) + 32) as char
    } else {
        c
    }
}

/// Whether two texts are the same but for the case of their ASCII letters.
pub open spec fn same_ignoring_ascii_case(a: Seq<char>, b: Seq<char>) -> bool {
    &&& a.len() == b.len()
    &&& forall|i: int| 0 <= i < a.len() ==> ascii_lower(#[trigger] a[i]) == ascii_lower(b[i])
}

/// Folds an upper-case ASCII letter onto its lower-case one.
pub fn to_ascii_lower(c: char) -> (folded: char)
    ensures
        folded == ascii_lower(c),
{
    if 'A' <= c && c <= 'Z' {
        ((c as u8) + 32) as char
    } else {
        c
    }
}

/// Compares a text with a word of the vocabulary, ignoring the case of ASCII
/// letters. The characters are compared only where the lengths agree, so the
/// cost is bounded by the word.
pub fn eq_ignoring_ascii_case(text: &str, word: &str) -> (same: bool)
    ensures
        same == same_ignoring_ascii_case(text@, word@),
{
    let len: usize = word.unicode_len();
    if text.unicode_len() != len {
        return false;
    }
    let mut at: usize = 0;
    while at < len
        invariant
            at <= len,
            len == word@.len(),
            len == text@.len(),
            forall|i: int| 0 <= i < at ==> ascii_lower(#[trigger] text@[i]) == ascii_lower(word@[i]),
        decreases len - at,
    {
        if to_ascii_lower(text.get_char(at)) != to_ascii_lower(word.get_char(at)) {
            return false;
        }
        at += 1;
    }
    true
}

} // verus!
