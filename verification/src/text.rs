//! Small string helpers used by the quiz and reply code.

use vstd::prelude::*;
use vstd::string::StrSliceExecFns;

verus! {

/// The character that stands for a single decimal digit.
pub open spec fn digit_char(d: nat) -> char {
    if d == 0 {
        '0'
    } else if d == 1 {
        '1'
    } else if d == 2 {
        '2'
    } else if d == 3 {
        '3'
    } else if d == 4 {
        '4'
    } else if d == 5 {
        '5'
    } else if d == 6 {
        '6'
    } else if d == 7 {
        '7'
    } else if d == 8 {
        '8'
    } else {
        '9'
    }
}

/// The decimal notation of a number, without sign or leading zeros.
pub open spec fn decimal(n: nat) -> Seq<char>
    decreases n,
{
    if n < 10 {
        seq![digit_char(n)]
    } else {
        decimal(n / 10).push(digit_char(n % 10))
    }
}

/// Calls `str::eq` of the standard library (the `==` of two string slices).
/// The contract claims that it answers whether both slices hold the same
/// characters in the same order; the comparison is exact, so case and
/// white space count.
#[verifier::external_body]
pub(crate) fn str_eq(a: &str, b: &str) -> (same: bool)
    ensures
        same == (a@ == b@),
{
    a == b
}

/// Calls `ToString::to_string` of the standard library on a `u8`.
/// The contract claims that the result is the number in decimal notation.
#[verifier::external_body]
pub(crate) fn u8_to_string(n: u8) -> (s: String)
    ensures
        s@ == decimal(n as nat),
{
    n.to_string()
}

/// Calls `ToString::to_string` of the standard library on a `u32`.
/// The contract claims that the result is the number in decimal notation.
#[verifier::external_body]
pub(crate) fn u32_to_string(n: u32) -> (s: String)
    ensures
        s@ == decimal(n as nat),
{
    n.to_string()
}

/// What `str::trim` makes of a text: the text without the white space at
/// its two ends, white space being what Unicode defines as such.
pub uninterp spec fn trimmed(text: Seq<char>) -> Seq<char>;

/// Calls `str::trim` of the standard library. The contract gives the result
/// its name and claims nothing else of it.
#[verifier::external_body]
pub(crate) fn trim(text: &str) -> (inner: &str)
    ensures
        inner@ == trimmed(text@),
{
    text.trim()
}

/// The position of the first space in `text`, or its length without one.
pub open spec fn first_space(text: Seq<char>) -> int
    decreases text.len(),
{
    if text.len() == 0 || text[0] == ' ' {
        0
    } else {
        1 + first_space(text.subrange(1, text.len() as int))
    }
}

/// The part of `text` before its first space: all of it without one.
pub open spec fn first_word(text: Seq<char>) -> Seq<char> {
    text.subrange(0, first_space(text))
}

/// The part of `text` behind its first space, if it has one.
pub open spec fn after_first_word(text: Seq<char>) -> Option<Seq<char>> {
    if first_space(text) < text.len() {
        Some(text.subrange(first_space(text) + 1, text.len() as int))
    } else {
        None
    }
}

/// The first space is where a space stands with none before it.
pub proof fn lemma_first_space(text: Seq<char>, at: int)
    requires
        0 <= at <= text.len(),
        forall|i: int| 0 <= i < at ==> text[i] != ' ',
        at < text.len() ==> text[at] == ' ',
    ensures
        first_space(text) == at,
    decreases text.len(),
{
    if text.len() > 0 && text[0] != ' ' {
        lemma_first_space(text.subrange(1, text.len() as int), at - 1);
    }
}

/// Splits `text` at its first space: the word before it and, if there is a
/// space, what stands behind it.
pub fn split_first_word(text: &str) -> (parts: (&str, Option<&str>))
    ensures
        parts.0@ == first_word(text@),
        match parts.1 {
            Some(rest) => after_first_word(text@) == Some(rest@),
            None => after_first_word(text@) is None,
        },
{
    let len = text.unicode_len();
    let mut at: usize = 0;
    while at < len && text.get_char(at) != ' '
        invariant
            at <= len,
            len == text@.len(),
            forall|i: int| 0 <= i < at ==> text@[i] != ' ',
        decreases len - at,
    {
        at += 1;
    }
    proof {
        lemma_first_space(text@, at as int);
    }
    let word = text.substring_char(0, at);
    if at < len {
        (word, Some(text.substring_char(at + 1, len)))
    } else {
        (word, None)
    }
}

} // verus!
