//! Base64 of whole inputs, in the standard or the URL-safe flavour.

use vstd::prelude::*;
use vstd::utf8::{decode_utf8, valid_utf8};
use crate::cli::base64::Base64Format;
use crate::trusted::encoding::{
    base64_len, decode_standard, decode_url_safe, encode_standard, encode_url_safe,
    standard_char, standard_decoding, standard_encoding, url_safe_char, url_safe_decoding,
    url_safe_encoding,
};
use crate::trusted::text::{string_from_utf8, trim, trimmed};

verus! {

/// Why a base64 operation was refused.
#[derive(Clone, Copy, Debug, PartialEq, Eq, Structural)]
pub enum Base64Error {
    /// The input is so long that the length of its base64 text does not fit
    /// the machine.
    InputTooLong,
    /// The input is not base64 text of the chosen flavour.
    InvalidBase64,
    /// The decoded bytes are not UTF-8 text.
    InvalidUtf8,
}

impl Base64Error {
    /// The text shown for this error.
    pub fn message(&self) -> (text: &'static str)
        ensures
            text@ == match *self {
                Base64Error::InputTooLong => "input is too long to encode"@,
                Base64Error::InvalidBase64 => "input is not valid base64"@,
                Base64Error::InvalidUtf8 => "decoded bytes are not valid UTF-8"@,
            },
    {
        match self {
            Base64Error::InputTooLong => "input is too long to encode",
            Base64Error::InvalidBase64 => "input is not valid base64",
            Base64Error::InvalidUtf8 => "decoded bytes are not valid UTF-8",
        }
    }
}

impl Base64Format {
    /// Whether this flavour fills the text up with `=` to a multiple of four.
    pub open spec fn padded(self) -> bool {
        self == Base64Format::Standard
    }

    /// Whether `c` can stand in text of this flavour.
    pub open spec fn allows(self, c: char) -> bool {
        match self {
            Base64Format::Standard => standard_char(c),
            Base64Format::UrlSafe => url_safe_char(c),
        }
    }

    /// The base64 text of `bytes` in this flavour.
    pub open spec fn encoding(self, bytes: Seq<u8>) -> Seq<char> {
        match self {
            Base64Format::Standard => standard_encoding(bytes),
            Base64Format::UrlSafe => url_safe_encoding(bytes),
        }
    }

    /// The bytes that `text` stands for in this flavour, if it stands for any.
    pub open spec fn decoding(self, text: Seq<char>) -> Option<Seq<u8>> {
        match self {
            Base64Format::Standard => standard_decoding(text),
            Base64Format::UrlSafe => url_safe_decoding(text),
        }
    }
}

/// Whether base64 text for `len` bytes has a length that fits the machine.
pub fn encodable(len: usize, padded: bool) -> (fits: bool)
    ensures
        fits == (base64_len(len as nat, padded) <= usize::MAX),
{
    let groups: usize = len / 3;
    let tail: usize = if len % 3 == 0 {
        0
    } else if padded {
        4
    } else {
        len % 3 + 1
    };
    groups <= (usize::MAX - tail) / 4
}

/// The base64 text of `bytes` in the flavour `format`. Decoding the text in
/// the same flavour gives `bytes` back.
pub fn encode(bytes: &[u8], format: Base64Format) -> (text: String)
    requires
        base64_len(bytes@.len(), format.padded()) <= usize::MAX,
    ensures
        text@ == format.encoding(bytes@),
        text@.len() == base64_len(bytes@.len(), format.padded()),
        forall|i: int| 0 <= i < text@.len() ==> format.allows(#[trigger] text@[i]),
        format.decoding(text@) == Some(bytes@),
{
    match format {
        Base64Format::Standard => encode_standard(bytes),
        Base64Format::UrlSafe => encode_url_safe(bytes),
    }
}

/// The bytes that `text` stands for in the flavour `format`.
pub fn decode(text: &str, format: Base64Format) -> (res: Result<Vec<u8>, Base64Error>)
    ensures
        match format.decoding(text@) {
            Some(bytes) => res is Ok && res.unwrap()@ == bytes,
            None => res == Err::<Vec<u8>, Base64Error>(Base64Error::InvalidBase64),
        },
{
    let decoded = match format {
        Base64Format::Standard => decode_standard(text),
        Base64Format::UrlSafe => decode_url_safe(text),
    };
    match decoded {
        Ok(bytes) => Ok(bytes),
        Err(_) => Err(Base64Error::InvalidBase64),
    }
}

/// The text that `bytes` encode as UTF-8; bytes that encode none are refused.
pub fn decoded_text(bytes: Vec<u8>) -> (res: Result<String, Base64Error>)
    ensures
        valid_utf8(bytes@) ==> res is Ok && res.unwrap()@ == decode_utf8(bytes@),
        !valid_utf8(bytes@) ==> res == Err::<String, Base64Error>(Base64Error::InvalidUtf8),
{
    match string_from_utf8(bytes) {
        Ok(text) => Ok(text),
        Err(_) => Err(Base64Error::InvalidUtf8),
    }
}

/// Encodes the whole `input` to base64 text of the flavour `format`.
pub fn process_encode(input: &[u8], format: Base64Format) -> (res: Result<String, Base64Error>)
    ensures
        base64_len(input@.len(), format.padded()) <= usize::MAX ==> {
            &&& res is Ok
            &&& res.unwrap()@ == format.encoding(input@)
            &&& res.unwrap()@.len() == base64_len(input@.len(), format.padded())
            &&& forall|i: int|
                0 <= i < res.unwrap()@.len() ==> format.allows(#[trigger] res.unwrap()@[i])
            &&& format.decoding(res.unwrap()@) == Some(input@)
        },
        base64_len(input@.len(), format.padded()) > usize::MAX ==> res == Err::<
            String,
            Base64Error,
        >(Base64Error::InputTooLong),
{
    let padded = match format {
        Base64Format::Standard => true,
        Base64Format::UrlSafe => false,
    };
    if encodable(input.len(), padded) {
        Ok(encode(input, format))
    } else {
        Err(Base64Error::InputTooLong)
    }
}

/// What decoding `input` comes to, given the bytes that its trimmed text
/// stands for.
pub open spec fn spec_decode(decoded: Option<Seq<u8>>) -> Result<Seq<char>, Base64Error> {
    match decoded {
        None => Err(Base64Error::InvalidBase64),
        Some(bytes) => if valid_utf8(bytes) {
            Ok(decode_utf8(bytes))
        } else {
            Err(Base64Error::InvalidUtf8)
        },
    }
}

/// Decodes `input`, base64 text of the flavour `format` with white space
/// around it allowed, to the text that its bytes encode.
pub fn process_decode(input: &str, format: Base64Format) -> (res: Result<String, Base64Error>)
    ensures
        match spec_decode(format.decoding(trimmed(input@))) {
            Ok(text) => res is Ok && res.unwrap()@ == text,
            Err(e) => res == Err::<String, Base64Error>(e),
        },
{
    let text = trim(input);
    let bytes = decode(text, format)?;
    decoded_text(bytes)
}

} // verus!
