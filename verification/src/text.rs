//! Text operations of the standard library that the rest of the crate builds on.

use vstd::prelude::*;
use vstd::string::StringSliceAdditionalSpecFns;

verus! {

/// The text held by an optional string.
pub open spec fn text_of(field: Option<String>) -> Option<Seq<char>> {
    match field {
        Some(s) => Some(s@),
        None => None,
    }
}

/// The text held by an optional string slice.
pub open spec fn slice_text(field: Option<&str>) -> Option<Seq<char>> {
    match field {
        Some(s) => Some(s@),
        None => None,
    }
}

/// The lower-case form of a text, as `str::to_lowercase` computes it.
pub uninterp spec fn lowercase(s: Seq<char>) -> Seq<char>;

/// `needle` stands in `haystack` at offset `at`.
pub open spec fn occurs_at(needle: Seq<char>, haystack: Seq<char>, at: int) -> bool {
    &&& 0 <= at
    &&& at + needle.len() <= haystack.len()
    &&& haystack.subrange(at, at + needle.len()) == needle
}

/// `needle` is a contiguous part of `haystack`. The empty text is a part of every text.
pub open spec fn is_substring(needle: Seq<char>, haystack: Seq<char>) -> bool {
    exists|at: int| occurs_at(needle, haystack, at)
}

/// Calls `str::to_lowercase`. Trusted: the result is the lower-case form of the
/// argument, which depends on nothing but the argument's characters.
#[verifier::external_body]
pub(crate) fn to_lowercase(s: &str) -> (lower: String)
    ensures
        lower@ == lowercase(s@),
{
    s.to_lowercase()
}

/// Calls `str::contains` with a string pattern. Trusted: the result says whether
/// the pattern matches a sub-slice of the text.
#[verifier::external_body]
pub(crate) fn contains(haystack: &str, needle: &str) -> (found: bool)
    ensures
        found == is_substring(needle@, haystack@),
{
    haystack.contains(needle)
}

/// `text` ends with `suffix`.
pub open spec fn is_suffix(suffix: Seq<char>, text: Seq<char>) -> bool {
    &&& suffix.len() <= text.len()
    &&& text.subrange(text.len() - suffix.len(), text.len() as int) == suffix
}

/// Calls `str::ends_with` with a string pattern. Trusted: the result says
/// whether the pattern matches a suffix of the text.
#[verifier::external_body]
pub(crate) fn ends_with(text: &str, suffix: &str) -> (found: bool)
    ensures
        found == is_suffix(suffix@, text@),
{
    text.ends_with(suffix)
}

/// Whether a character is a letter or a number, as `char::is_alphanumeric`
/// tells it.
pub uninterp spec fn alphanumeric(c: char) -> bool;

/// Calls `char::is_alphanumeric`. Trusted: the result depends on the
/// character alone.
#[verifier::external_body]
pub(crate) fn is_alphanumeric(c: char) -> (yes: bool)
    ensures
        yes == alphanumeric(c),
{
    c.is_alphanumeric()
}

/// Calls `String::push`. Trusted: the character is added at the end.
#[verifier::external_body]
pub(crate) fn push_char(s: &mut String, c: char)
    ensures
        final(s)@ == old(s)@.push(c),
{
    s.push(c)
}

/// Calls `std::str::from_utf8`. Trusted: the bytes are taken as a text where
/// they are valid UTF-8, and only there.
#[verifier::external_body]
pub(crate) fn utf8_text(bytes: &[u8]) -> (text: Option<&str>)
    ensures
        match text {
            Some(t) => vstd::utf8::valid_utf8(bytes@) && t.spec_bytes() == bytes@,
            None => !vstd::utf8::valid_utf8(bytes@),
        },
{
    std::str::from_utf8(bytes).ok()
}

/// The character for a digit from 0 to 9.
pub open spec fn digit(d: int) -> char {
    (48 + d) as char
}

/// A number written in decimal digits, without leading zeros.
pub open spec fn decimal(n: nat) -> Seq<char>
    decreases n,
{
    if n < 10 {
        seq![digit(n as int)]
    } else {
        decimal(n / 10).push(digit((n % 10) as int))
    }
}

/// Writes a number in decimal digits.
pub fn decimal_text(n: u64) -> (text: String)
    ensures
        text@ == decimal(n as nat),
    decreases n,
{
    if n < 10 {
        let mut text = String::new();
        push_char(&mut text, (48u8 + n as u8) as char);
        assert(text@ =~= seq![digit(n as int)]);
        text
    } else {
        let mut text = decimal_text(n / 10);
        push_char(&mut text, (48u8 + (n % 10) as u8) as char);
        text
    }
}

} // verus!
