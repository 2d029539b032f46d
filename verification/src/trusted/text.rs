//! Calls into the text functions of the standard library that have no
//! specification yet.

use vstd::prelude::*;
use vstd::utf8::{decode_utf8, valid_utf8};

verus! {

/// The error of `String::from_utf8`.
#[verifier::external_type_specification]
#[verifier::external_body]
pub struct ExFromUtf8Error(std::string::FromUtf8Error);

/// The lowercase form of `text`, as `str::to_lowercase` gives it.
pub uninterp spec fn lowercase(text: Seq<char>) -> Seq<char>;

/// `text` without the white space at its two ends, as `str::trim` gives it.
pub uninterp spec fn trimmed(text: Seq<char>) -> Seq<char>;

/// Calls `str::to_lowercase`.
///
/// Trusted: the result is a function of the text alone, named by `lowercase`.
#[verifier::external_body]
pub(crate) fn to_lowercase(text: &str) -> (lower: String)
    ensures
        lower@ == lowercase(text@),
{
    text.to_lowercase()
}

/// Whether `c` is a visible character of the ASCII range, `!` to `~`.
pub open spec fn visible(c: char) -> bool {
    '!' <= c <= '~'
}

/// Calls `str::trim`.
///
/// Trusted: the result is a function of the text alone, named by `trimmed`;
/// and a text that is empty, or begins and ends with a visible character, so
/// that it has no white space at either end, comes back whole.
#[verifier::external_body]
pub(crate) fn trim(text: &str) -> (inner: &str)
    ensures
        inner@ == trimmed(text@),
        text@.len() == 0 ==> inner@ == text@,
        text@.len() > 0 && visible(text@.first()) && visible(text@.last()) ==> inner@ == text@,
{
    text.trim()
}

/// Calls `String::from_utf8`.
///
/// Trusted: bytes that are valid UTF-8 give the string they encode, all
/// others an error.
#[verifier::external_body]
pub(crate) fn string_from_utf8(bytes: Vec<u8>) -> (res: Result<String, std::string::FromUtf8Error>)
    ensures
        match res {
            Ok(text) => valid_utf8(bytes@) && text@ == decode_utf8(bytes@),
            Err(_) => !valid_utf8(bytes@),
        },
{
    String::from_utf8(bytes)
}

} // verus!
