//! Functions of the standard library on strings and characters that the
//! engine calls, each with the contract under which it is called.
//!
//! The contracts are taken on trust: nothing here is proved. Where what a
//! function returns follows rules too long to spell out, such as those of
//! Unicode, the result has a name, and the contract says that the function
//! returns what the name stands for.

use crate::text::{holds, texts};
use vstd::prelude::*;
use vstd::string::*;

verus! {

/// `str::contains` with a string as the pattern: whether `needle` occurs in
/// `haystack`. Both are valid UTF-8, so a match of the bytes is a match of
/// the characters.
#[verifier::external_body]
pub(crate) fn text_contains(haystack: &str, needle: &str) -> (r: bool)
    ensures
        r == holds(haystack@, needle@),
{
    haystack.contains(needle)
}

/// What is left of a text once the white space at its two ends is taken
/// away.
pub uninterp spec fn trimmed(text: Seq<char>) -> Seq<char>;

/// `str::trim`: the text without the white space at its two ends, as
/// Unicode defines white space. The result is named, not spelled out.
#[verifier::external_body]
pub(crate) fn trim(text: &str) -> (r: &str)
    ensures
        r@ == trimmed(text@),
{
    text.trim()
}

/// The lines of a text: what stands between its line breaks, without them.
pub uninterp spec fn lines_of(text: Seq<char>) -> Seq<Seq<char>>;

/// `str::lines`: the lines of a text, each without its line break. The
/// result is named, not spelled out.
#[verifier::external_body]
pub(crate) fn lines(text: &str) -> (r: Vec<String>)
    ensures
        texts(r@) == lines_of(text@),
{
    text.lines().map(String::from).collect()
}

/// The words of a text: its runs of characters that are no white space.
pub uninterp spec fn words_of(text: Seq<char>) -> Seq<Seq<char>>;

/// `str::split_whitespace`: the words of a text, in order. The result is
/// named, not spelled out.
#[verifier::external_body]
pub(crate) fn words(text: &str) -> (r: Vec<String>)
    ensures
        texts(r@) == words_of(text@),
{
    text.split_whitespace().map(String::from).collect()
}

/// The number that a text is the decimal numeral of, if it is one and the
/// number fits 64 bits.
pub uninterp spec fn number_of(text: Seq<char>) -> Option<u64>;

/// `str::parse` for a `u64`: the number that the text is the decimal
/// numeral of, and `None` for any other text. The result is named, not
/// spelled out.
#[verifier::external_body]
pub(crate) fn parse_number(text: &str) -> (r: Option<u64>)
    ensures
        r == number_of(text@),
{
    text.parse::<u64>().ok()
}

/// A text in upper case, as Unicode maps its characters.
pub uninterp spec fn uppercase(text: Seq<char>) -> Seq<char>;

/// `str::to_uppercase`: the text in upper case. The result is named, not
/// spelled out.
#[verifier::external_body]
pub(crate) fn to_uppercase(text: &str) -> (r: String)
    ensures
        r@ == uppercase(text@),
{
    text.to_uppercase()
}

/// A text without the occurrences of a pattern, taken out from left to
/// right.
pub uninterp spec fn without(text: Seq<char>, pattern: Seq<char>) -> Seq<char>;

/// `str::replace` with the empty string as the replacement: the text
/// without the matches of `pattern`. The result is named, not spelled out.
#[verifier::external_body]
pub(crate) fn remove_all(text: &str, pattern: &str) -> (r: String)
    ensures
        r@ == without(text@, pattern@),
{
    text.replace(pattern, "")
}

/// A text without the occurrences of a pattern at its front.
pub uninterp spec fn without_leading(text: Seq<char>, pattern: Seq<char>) -> Seq<char>;

/// `str::trim_start_matches` with a string as the pattern: the text
/// without the matches of `pattern` at its front, taken away one after the
/// other. The result is named, not spelled out.
#[verifier::external_body]
pub(crate) fn trim_start_matches<'a>(text: &'a str, pattern: &str) -> (r: &'a str)
    ensures
        r@ == without_leading(text@, pattern@),
{
    text.trim_start_matches(pattern)
}

/// Whether Unicode counts the character among the numeric ones.
pub uninterp spec fn numeric(c: char) -> bool;

/// `char::is_numeric`: whether the character is in one of Unicode's
/// numeric categories. The result is named, not spelled out.
#[verifier::external_body]
pub(crate) fn is_numeric(c: char) -> (r: bool)
    ensures
        r == numeric(c),
{
    c.is_numeric()
}

} // verus!
