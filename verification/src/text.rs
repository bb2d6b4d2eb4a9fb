//! Thin contracts for the string operations of the standard library that the
//! rest of the crate relies on.

use vstd::prelude::*;

verus! {

/// The lowercase form of a text, as `str::to_lowercase` computes it from the
/// Unicode case tables.
pub uninterp spec fn lowercase_of(s: Seq<char>) -> Seq<char>;

/// A text without its leading and trailing whitespace, as `str::trim` returns it.
pub uninterp spec fn trimmed_of(s: Seq<char>) -> Seq<char>;

/// `str::eq`: two string slices compare equal exactly when they hold the same
/// characters.
#[verifier::external_body]
pub(crate) fn str_eq(a: &str, b: &str) -> (r: bool)
    ensures
        r == (a@ == b@),
{
    a == b
}

/// `str::starts_with` with a string pattern: true exactly when the pattern's
/// characters are the first characters of the text.
#[verifier::external_body]
pub(crate) fn starts_with(s: &str, prefix: &str) -> (r: bool)
    ensures
        r == prefix@.is_prefix_of(s@),
{
    s.starts_with(prefix)
}

/// `str::to_lowercase`: the result is named by [`lowercase_of`]; nothing more
/// is claimed of it.
#[verifier::external_body]
pub(crate) fn to_lowercase(s: &str) -> (r: String)
    ensures
        r@ == lowercase_of(s@),
{
    s.to_lowercase()
}

/// `str::trim`: the result is named by [`trimmed_of`]; nothing more is claimed
/// of it.
#[verifier::external_body]
pub(crate) fn trim(s: &str) -> (r: &str)
    ensures
        r@ == trimmed_of(s@),
{
    s.trim()
}

/// `str::split_once` with a character as the delimiter: the parts before
/// and after the first occurrence of the character, or nothing where the
/// character does not occur.
#[verifier::external_body]
pub(crate) fn split_once(s: &str, delimiter: char) -> (r: Option<(&str, &str)>)
    ensures
        match r {
            Some((head, tail)) => s@ == head@ + seq![delimiter] + tail@ && !head@.contains(delimiter),
            None => !s@.contains(delimiter),
        },
{
    s.split_once(delimiter)
}

/// Builds `a` followed by `b` in a fresh string.
pub fn join2(a: &str, b: &str) -> (r: String)
    ensures
        r@ == a@ + b@,
{
    let mut out = a.to_owned();
    out.append(b);
    out
}

/// The message that rejects `given` as a value of the setting `kind` and
/// lists the accepted `choices`.
pub open spec fn invalid_choice_text(kind: Seq<char>, given: Seq<char>, choices: Seq<char>) -> Seq<char> {
    "Invalid "@ + kind + ": "@ + given + ". Use: "@ + choices
}

/// Builds the message that rejects `given` as a value of the setting `kind`.
pub fn invalid_choice(kind: &str, given: &str, choices: &str) -> (r: String)
    ensures
        r@ == invalid_choice_text(kind@, given@, choices@),
{
    let mut out = "Invalid ".to_owned();
    out.append(kind);
    out.append(": ");
    out.append(given);
    out.append(". Use: ");
    out.append(choices);
    out
}

} // verus!
