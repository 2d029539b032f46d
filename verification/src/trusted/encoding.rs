//! Calls into `base64`.

use vstd::prelude::*;
use ::base64::engine::general_purpose::{STANDARD, URL_SAFE_NO_PAD};
use ::base64::Engine;

verus! {

/// The error of `base64`'s decoders.
#[verifier::external_type_specification]
#[verifier::external_body]
pub struct ExDecodeError(::base64::DecodeError);

/// Number of characters that base64 needs for `n` bytes: four for every full
/// group of three bytes, and for a last group of one or two bytes either four
/// (padded) or one more than its bytes (unpadded).
pub open spec fn base64_len(n: nat, padded: bool) -> nat {
    (n / 3) * 4 + if n % 3 == 0 {
        0
    } else if padded {
        4
    } else {
        n % 3 + 1
    }
}

/// Whether `c` is a letter or a digit of the ASCII range: the 62 characters
/// that every base64 alphabet starts with.
pub open spec fn base64_letter(c: char) -> bool {
    ('A' <= c <= 'Z') || ('a' <= c <= 'z') || ('0' <= c <= '9')
}

/// Whether `c` belongs to the URL-safe alphabet: letters, digits, `-` and `_`.
pub open spec fn url_safe_char(c: char) -> bool {
    base64_letter(c) || c == '-' || c == '_'
}

/// Whether `c` can stand in padded text of the standard alphabet: letters,
/// digits, `+` and `/`, and `=` for the padding.
pub open spec fn standard_char(c: char) -> bool {
    base64_letter(c) || c == '+' || c == '/' || c == '='
}

/// Base64 text of `bytes` in the URL-safe alphabet, without padding.
pub uninterp spec fn url_safe_encoding(bytes: Seq<u8>) -> Seq<char>;

/// The bytes that `text` stands for in the URL-safe alphabet without padding,
/// or `None` where `text` is no such encoding.
pub uninterp spec fn url_safe_decoding(text: Seq<char>) -> Option<Seq<u8>>;

/// Base64 text of `bytes` in the standard alphabet, with padding.
pub uninterp spec fn standard_encoding(bytes: Seq<u8>) -> Seq<char>;

/// The bytes that `text` stands for in the standard alphabet with padding, or
/// `None` where `text` is no such encoding.
pub uninterp spec fn standard_decoding(text: Seq<char>) -> Option<Seq<u8>>;

/// Calls `Engine::encode` on `URL_SAFE_NO_PAD`.
///
/// Trusted: the text is a function of the bytes, named by `url_safe_encoding`;
/// it has the unpadded base64 length and holds characters of the URL-safe
/// alphabet only; and the same engine decodes it back to the bytes it was
/// made from. The call panics when the length of the text overflows `usize`,
/// which `requires` rules out.
#[verifier::external_body]
pub(crate) fn encode_url_safe(bytes: &[u8]) -> (text: String)
    requires
        base64_len(bytes@.len(), false) <= usize::MAX,
    ensures
        text@ == url_safe_encoding(bytes@),
        text@.len() == base64_len(bytes@.len(), false),
        forall|i: int| 0 <= i < text@.len() ==> url_safe_char(#[trigger] text@[i]),
        url_safe_decoding(text@) == Some(bytes@),
{
    URL_SAFE_NO_PAD.encode(bytes)
}

/// Calls `Engine::decode` on `URL_SAFE_NO_PAD`.
///
/// Trusted: whether the text decodes, and to which bytes, depends on the text
/// alone; `url_safe_decoding` names it.
#[verifier::external_body]
pub(crate) fn decode_url_safe(text: &str) -> (res: Result<Vec<u8>, ::base64::DecodeError>)
    ensures
        match res {
            Ok(bytes) => url_safe_decoding(text@) == Some(bytes@),
            Err(_) => url_safe_decoding(text@) is None,
        },
{
    URL_SAFE_NO_PAD.decode(text)
}

/// Calls `Engine::encode` on `STANDARD`.
///
/// Trusted: the text is a function of the bytes, named by `standard_encoding`;
/// it has the padded base64 length and holds characters of the standard
/// alphabet and `=` only; and the same engine decodes it back to the bytes it
/// was made from. The call panics when the length of the text overflows
/// `usize`, which `requires` rules out.
#[verifier::external_body]
pub(crate) fn encode_standard(bytes: &[u8]) -> (text: String)
    requires
        base64_len(bytes@.len(), true) <= usize::MAX,
    ensures
        text@ == standard_encoding(bytes@),
        text@.len() == base64_len(bytes@.len(), true),
        forall|i: int| 0 <= i < text@.len() ==> standard_char(#[trigger] text@[i]),
        standard_decoding(text@) == Some(bytes@),
{
    STANDARD.encode(bytes)
}

/// Calls `Engine::decode` on `STANDARD`.
///
/// Trusted: whether the text decodes, and to which bytes, depends on the text
/// alone; `standard_decoding` names it.
#[verifier::external_body]
pub(crate) fn decode_standard(text: &str) -> (res: Result<Vec<u8>, ::base64::DecodeError>)
    ensures
        match res {
            Ok(bytes) => standard_decoding(text@) == Some(bytes@),
            Err(_) => standard_decoding(text@) is None,
        },
{
    STANDARD.decode(text)
}

} // verus!
