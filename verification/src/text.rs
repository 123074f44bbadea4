//! ASCII case folding and suffix matching on strings, with the mathematical
//! meaning of both.

use vstd::prelude::*;

verus! {

/// The ASCII lower-case form of one character: `'A'..='Z'` move to
/// `'a'..='z'`, every other character stays.
pub open spec fn ascii_lower_char(c: char) -> char {
    if 'A' <= c && c <= 'Z' {
        ((c as u8 + 32) as u8) as char
    } else {
        c
    }
}

/// The ASCII lower-case form of a string, character by character.
pub open spec fn ascii_lower(s: Seq<char>) -> Seq<char> {
    Seq::new(s.len(), |i: int| ascii_lower_char(s[i]))
}

/// `suffix` is what `s` ends with.
pub open spec fn ends_with_spec(s: Seq<char>, suffix: Seq<char>) -> bool {
    suffix.len() <= s.len() && s.subrange(s.len() - suffix.len(), s.len() as int) == suffix
}

/// The last `n` characters of `s`.
pub open spec fn trailing(s: Seq<char>, n: nat) -> Seq<char>
    recommends
        n <= s.len(),
{
    s.subrange(s.len() - n, s.len() as int)
}

/// `str::to_ascii_lowercase`: a copy in which each ASCII upper-case letter is
/// replaced by its lower-case letter and nothing else changes.
#[verifier::external_body]
pub(crate) fn to_ascii_lowercase(s: &str) -> (r: String)
    ensures
        r@ == ascii_lower(s@),
{
    s.to_ascii_lowercase()
}

/// `str::ends_with` with a string pattern: whether the pattern is a suffix of
/// the string.
#[verifier::external_body]
pub(crate) fn ends_with(s: &str, suffix: &str) -> (r: bool)
    ensures
        r == ends_with_spec(s@, suffix@),
{
    s.ends_with(suffix)
}

} // verus!
