use wrcli::cli::base64::Base64Format;
use wrcli::process::b64::{decode, decoded_text, encodable, encode, Base64Error};
use wrcli::{process_decode, process_encode};

#[test]
fn test_process_encode() {
    let input = b"[package]\nname = \"wrcli\"\n";
    let format = Base64Format::Standard;
    assert!(process_encode(input, format).is_ok());
}

#[test]
fn test_process_decode() {
    let input = "aGVsbG8gd29ybGQh\n";
    let format = Base64Format::Standard;
    assert!(process_decode(input, format).is_ok());
}

#[test]
fn encode_gives_the_known_texts() {
    assert_eq!(process_encode(b"hello", Base64Format::Standard), Ok("aGVsbG8=".to_string()));
    assert_eq!(process_encode(b"hello", Base64Format::UrlSafe), Ok("aGVsbG8".to_string()));
    assert_eq!(
        process_encode(b"\xFF\xEC\x20\x55\0", Base64Format::Standard),
        Ok("/+wgVQA=".to_string())
    );
    assert_eq!(
        process_encode(b"\xFF\xEC\x20\x55\0", Base64Format::UrlSafe),
        Ok("_-wgVQA".to_string())
    );
    assert_eq!(process_encode(b"", Base64Format::Standard), Ok(String::new()));
    assert_eq!(encode(b"hello world!", Base64Format::Standard), "aGVsbG8gd29ybGQh");
}

#[test]
fn decode_gives_the_known_bytes() {
    assert_eq!(decode("+uwgVQA=", Base64Format::Standard), Ok(b"\xFA\xEC\x20\x55\0".to_vec()));
    assert_eq!(decode("-uwgVQA", Base64Format::UrlSafe), Ok(b"\xFA\xEC\x20\x55\0".to_vec()));
    assert_eq!(decode("", Base64Format::UrlSafe), Ok(Vec::new()));
}

#[test]
fn decode_refuses_the_other_flavour() {
    assert_eq!(decode("-uwgVQA", Base64Format::Standard), Err(Base64Error::InvalidBase64));
    assert_eq!(decode("+uwgVQA=", Base64Format::UrlSafe), Err(Base64Error::InvalidBase64));
    assert_eq!(decode("aGVsbG8=", Base64Format::UrlSafe), Err(Base64Error::InvalidBase64));
    assert_eq!(decode("aGVsbG8", Base64Format::Standard), Err(Base64Error::InvalidBase64));
    assert_eq!(decode("not base64!", Base64Format::Standard), Err(Base64Error::InvalidBase64));
}

#[test]
fn process_decode_trims_and_reads_text() {
    assert_eq!(
        process_decode("  aGVsbG8gd29ybGQh \n", Base64Format::Standard),
        Ok("hello world!".to_string())
    );
    assert_eq!(process_decode("aGVsbG8", Base64Format::UrlSafe), Ok("hello".to_string()));
    assert_eq!(
        process_decode("aGVs bG8=", Base64Format::Standard),
        Err(Base64Error::InvalidBase64)
    );
}

#[test]
fn process_decode_refuses_bytes_that_are_no_text() {
    assert_eq!(process_decode("/+w=", Base64Format::Standard), Err(Base64Error::InvalidUtf8));
    assert_eq!(decoded_text(vec![0xff, 0xec]), Err(Base64Error::InvalidUtf8));
    assert_eq!(decoded_text(vec![0xc3, 0xbc]), Ok("ü".to_string()));
    assert_eq!(decoded_text(Vec::new()), Ok(String::new()));
}

#[test]
fn encode_then_decode_gives_the_bytes_back() {
    let every_byte: Vec<u8> = (0..=255u8).collect();
    for format in [Base64Format::Standard, Base64Format::UrlSafe] {
        for len in 0..every_byte.len() {
            let bytes = &every_byte[..len];
            let text = encode(bytes, format);
            assert_eq!(decode(&text, format), Ok(bytes.to_vec()));
        }
    }
}

#[test]
fn encoded_length_follows_the_formula() {
    for len in 0..100usize {
        let bytes = vec![0xa5u8; len];
        let padded = encode(&bytes, Base64Format::Standard);
        let bare = encode(&bytes, Base64Format::UrlSafe);
        assert_eq!(padded.len(), (len + 2) / 3 * 4);
        assert_eq!(bare.len(), (len * 4 + 2) / 3);
    }
    assert_eq!(encode(&[0u8; 32], Base64Format::UrlSafe).len(), 43);
    assert_eq!(encode(&[0u8; 64], Base64Format::UrlSafe).len(), 86);
}

#[test]
fn encoded_text_keeps_to_its_alphabet() {
    let every_byte: Vec<u8> = (0..=255u8).collect();
    let padded = encode(&every_byte, Base64Format::Standard);
    assert!(padded.bytes().all(|c| c.is_ascii_alphanumeric() || c == b'+' || c == b'/' || c == b'='));
    assert!(padded.contains('+') && padded.contains('/') && padded.ends_with('='));
    let bare = encode(&every_byte, Base64Format::UrlSafe);
    assert!(bare.bytes().all(|c| c.is_ascii_alphanumeric() || c == b'-' || c == b'_'));
    assert!(bare.contains('-') && bare.contains('_'));
}

#[test]
fn encodable_knows_the_limit() {
    assert!(encodable(0, true));
    assert!(encodable(64, false));
    assert!(encodable(usize::MAX / 4 * 3, true));
    assert!(!encodable(usize::MAX / 4 * 3 + 1, true));
    assert!(encodable(usize::MAX / 4 * 3 + 1, false));
    assert!(encodable(usize::MAX / 4 * 3 + 2, false));
    assert!(!encodable(usize::MAX / 4 * 3 + 3, false));
    assert!(!encodable(usize::MAX, false));
}

#[test]
fn base64_errors_have_their_messages() {
    assert_eq!(Base64Error::InputTooLong.message(), "input is too long to encode");
    assert_eq!(Base64Error::InvalidBase64.message(), "input is not valid base64");
    assert_eq!(Base64Error::InvalidUtf8.message(), "decoded bytes are not valid UTF-8");
}
