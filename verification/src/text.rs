//! Text primitives taken from the standard library and from outside crates.
//!
//! The items that name an outside function are believed, not proved: each
//! states what that function returns, and the rest of the crate is verified
//! against it. Only [`eq_ignore_case`], at the end, is proved from them.

use vstd::prelude::*;

verus! {

/// The Unicode upper-case form of a string, as `str::to_uppercase` gives it.
pub uninterp spec fn uppercase(s: Seq<char>) -> Seq<char>;

/// Whether a character has the Unicode `Lowercase` property, as
/// `char::is_lowercase` decides it.
pub uninterp spec fn lowercase_char(c: char) -> bool;

/// Whether a character has the Unicode `Uppercase` property, as
/// `char::is_uppercase` decides it.
pub uninterp spec fn uppercase_char(c: char) -> bool;

/// `str::to_uppercase`: the result is the upper-case form of the whole string.
pub assume_specification[ str::to_uppercase ](s: &str) -> (upper: String)
    ensures
        upper@ == uppercase(s@),
;

/// `char::is_lowercase`: the answer depends on the character alone.
pub assume_specification[ char::is_lowercase ](c: char) -> (lower: bool)
    ensures
        lower == lowercase_char(c),
;

/// `char::is_uppercase`: the answer depends on the character alone.
pub assume_specification[ char::is_uppercase ](c: char) -> (upper: bool)
    ensures
        upper == uppercase_char(c),
;

/// The successive non-overlapping matches of a regular expression in a text,
/// as `regex::Regex::find_iter` yields them, or `None` where
/// `regex::Regex::new` refuses the pattern.
pub uninterp spec fn regex_matches(pattern: Seq<char>, text: Seq<char>) -> Option<Seq<Seq<char>>>;

/// The bits of the `f64` that `strsim::jaro` returns for two strings.
pub uninterp spec fn jaro_bits(a: Seq<char>, b: Seq<char>) -> u64;

/// Compiles `pattern` with `regex::Regex::new` and collects the text of each
/// match that `find_iter` yields in `text`, in order. The result is `None`
/// exactly where the pattern does not compile.
#[verifier::external_body]
pub(crate) fn find_matches(pattern: &str, text: &str) -> (found: Option<Vec<String>>)
    ensures
        found is Some == regex_matches(pattern@, text@) is Some,
        found matches Some(words) ==> texts(words@) == regex_matches(pattern@, text@)->0,
{
    match regex::Regex::new(pattern) {
        Ok(re) => Some(re.find_iter(text).map(|m| m.as_str().to_string()).collect()),
        Err(_) => None,
    }
}

/// Calls `strsim::jaro` and hands back the bit pattern of the similarity it
/// returns. The value depends on the two strings alone and lies between 0.0
/// and 1.0, so that its bits are at most those of 1.0.
#[verifier::external_body]
pub(crate) fn jaro_similarity(a: &str, b: &str) -> (bits: u64)
    ensures
        bits == jaro_bits(a@, b@),
        bits <= 0x3FF0_0000_0000_0000,
{
    strsim::jaro(a, b).to_bits()
}

/// The views of a sequence of strings.
pub open spec fn texts(strings: Seq<String>) -> Seq<Seq<char>> {
    strings.map_values(|s: String| s@)
}

/// Compares two strings ignoring case, by their upper-case forms.
pub fn eq_ignore_case(a: &str, b: &str) -> (same: bool)
    ensures
        same == (uppercase(a@) == uppercase(b@)),
{
    let x = a.to_uppercase();
    let y = b.to_uppercase();
    x == y
}

} // verus!
