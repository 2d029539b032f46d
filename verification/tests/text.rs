use wrcli::cli::text::TextSignFormat;
use wrcli::process::text::{
    bytes_equal, decode_signature, encode_signature, key_prefix, keypair_blobs, password_key,
    signature_array, verify_signature, Blake3, Ed25519Signer, Ed25519Verifier, KeyGenerator,
    KeyLoader, TextError, TextSign, TextVerify,
};
use wrcli::process::gen_pass::GenPassError;
use wrcli::{process_generate, process_sign, process_verify};

const KEY: &str = "0123456789abcdef0123456789abcdef";

const SECRET_KEY: [u8; 32] = [
    157, 97, 177, 157, 239, 253, 90, 96, 186, 132, 74, 244, 146, 236, 44, 196, 68, 73, 197, 105,
    123, 50, 105, 25, 112, 59, 172, 3, 28, 174, 127, 96,
];

const PUBLIC_KEY: [u8; 32] = [
    215, 90, 152, 1, 130, 177, 10, 183, 213, 75, 254, 211, 201, 100, 7, 58, 14, 225, 114, 243, 218,
    166, 35, 37, 175, 2, 26, 104, 247, 7, 81, 26,
];

fn from_hex(text: &str) -> Vec<u8> {
    let digits: Vec<u8> = text.bytes().map(|c| (c as char).to_digit(16).unwrap() as u8).collect();
    digits.chunks(2).map(|pair| pair[0] * 16 + pair[1]).collect()
}

#[test]
fn test_process_sign() {
    let data = b"hello world!";
    let signer = Blake3::try_new(KEY.as_bytes()).unwrap();
    let sign = signer.sign(&data[..]);
    assert!(sign.is_ok());
}

#[test]
fn text_process_text_verify() {
    let data = b"hello world!";
    let signer = Blake3::try_new(KEY.as_bytes()).unwrap();
    let sign = signer.sign(&data[..]).unwrap();
    let ret = signer.verify(&data[..], &sign);
    assert!(ret.is_ok());
}

#[test]
fn test_ed25519_sign_verify() {
    let sk = Ed25519Signer::load(&SECRET_KEY).unwrap();
    let pk = Ed25519Verifier::load(&PUBLIC_KEY).unwrap();
    let data = b"hello world!";
    let sig = sk.sign(&data[..]).unwrap();
    assert!(pk.verify(&data[..], &sig).is_ok());
}

#[test]
fn blake3_signature_is_the_keyed_hash() {
    let key: [u8; 32] = KEY.as_bytes().try_into().unwrap();
    let signer = Blake3::new(key);
    let sig = signer.sign(b"hello world!").unwrap();
    assert_eq!(sig.len(), 32);
    assert_eq!(sig, blake3::keyed_hash(&key, b"hello world!").as_bytes().to_vec());
    assert_ne!(sig, key.to_vec());
    assert_eq!(signer.verify(b"hello world!", &sig), Ok(true));
}

#[test]
fn blake3_signature_of_the_published_vector() {
    let signer = Blake3::try_new(b"whats the Elvish word for friend").unwrap();
    let sig = signer.sign(b"").unwrap();
    assert_eq!(sig, from_hex("92b2b75604ed3c761f9d6f62392c8a9227ad0ea3f09573e783f1498a4ed60d26"));
}

#[test]
fn blake3_verifies_what_it_signed() {
    let signer = Blake3::try_new(KEY.as_bytes()).unwrap();
    for message in [&b""[..], &b"a"[..], &b"hello world!"[..], &[0u8; 5000][..]] {
        let sig = signer.sign(message).unwrap();
        assert_eq!(signer.verify(message, &sig), Ok(true));
    }
}

#[test]
fn blake3_signatures_of_two_messages_differ() {
    let signer = Blake3::try_new(KEY.as_bytes()).unwrap();
    let one = signer.sign(b"hello world!").unwrap();
    let other = signer.sign(b"hello world?").unwrap();
    assert_ne!(one, other);
    assert_eq!(one, signer.sign(b"hello world!").unwrap());
}

#[test]
fn blake3_signatures_of_two_keys_differ() {
    let one = Blake3::try_new(KEY.as_bytes()).unwrap();
    let other = Blake3::try_new(b"1123456789abcdef0123456789abcdef").unwrap();
    assert_ne!(one.sign(b"hello world!").unwrap(), other.sign(b"hello world!").unwrap());
}

#[test]
fn blake3_rejects_a_message_with_one_byte_flipped() {
    let signer = Blake3::try_new(KEY.as_bytes()).unwrap();
    let message = b"hello world!".to_vec();
    let sig = signer.sign(&message).unwrap();
    for at in 0..message.len() {
        let mut tampered = message.clone();
        tampered[at] ^= 1;
        assert_eq!(signer.verify(&tampered, &sig), Ok(false));
    }
}

#[test]
fn blake3_takes_the_signature_whole() {
    let signer = Blake3::try_new(KEY.as_bytes()).unwrap();
    let sig = signer.sign(b"hello world!").unwrap();
    let mut longer = sig.clone();
    longer.push(0);
    assert_eq!(signer.verify(b"hello world!", &longer), Ok(false));
    assert_eq!(signer.verify(b"hello world!", &sig[..31]), Ok(false));
    assert_eq!(signer.verify(b"hello world!", &[]), Ok(false));
    let mut wrong = sig.clone();
    wrong[31] ^= 0x80;
    assert_eq!(signer.verify(b"hello world!", &wrong), Ok(false));
}

#[test]
fn ed25519_signature_of_the_published_vector() {
    let signer = Ed25519Signer::new(&SECRET_KEY);
    let sig = signer.sign(b"").unwrap();
    assert_eq!(
        sig,
        from_hex(
            "e5564300c360ac729086e2cc806e828a84877f1eb8e5d974d873e065224901555fb8821590a33bacc61e39701cf9b46bd25bf5f0595bbe24655141438e7a100b"
        )
    );
    let verifier = Ed25519Verifier::new(&PUBLIC_KEY);
    assert_eq!(verifier.verify(b"", &sig), Ok(true));
}

#[test]
fn ed25519_public_key_of_the_published_vector() {
    let keys = keypair_blobs(&SECRET_KEY);
    assert_eq!(keys, vec![SECRET_KEY.to_vec(), PUBLIC_KEY.to_vec()]);
}

#[test]
fn ed25519_generated_pair_signs_and_verifies() {
    let keys = process_generate(TextSignFormat::Ed25519).unwrap();
    assert_eq!(keys.len(), 2);
    assert_eq!(keys[0].len(), 32);
    assert_eq!(keys[1].len(), 32);
    let signer = Ed25519Signer::try_new(&keys[0]).unwrap();
    let sig = signer.sign(b"hello world!").unwrap();
    assert_eq!(sig.len(), 64);
    let verifier = Ed25519Verifier::try_new(&keys[1]).unwrap();
    assert_eq!(verifier.verify(b"hello world!", &sig), Ok(true));

    let others = Ed25519Signer::generate_key().unwrap();
    assert_ne!(others[1], keys[1]);
    let stranger = Ed25519Verifier::try_new(&others[1]).unwrap();
    assert_eq!(stranger.verify(b"hello world!", &sig), Ok(false));
}

#[test]
fn ed25519_signatures_of_two_messages_differ() {
    let signer = Ed25519Signer::new(&SECRET_KEY);
    let one = signer.sign(b"hello world!").unwrap();
    let other = signer.sign(b"hello world?").unwrap();
    assert_ne!(one, other);
    assert_eq!(one, signer.sign(b"hello world!").unwrap());
}

#[test]
fn ed25519_rejects_a_message_with_one_byte_flipped() {
    let signer = Ed25519Signer::new(&SECRET_KEY);
    let verifier = Ed25519Verifier::new(&PUBLIC_KEY);
    let message = b"hello world!".to_vec();
    let sig = signer.sign(&message).unwrap();
    assert_eq!(verifier.verify(&message, &sig), Ok(true));
    for at in 0..message.len() {
        let mut tampered = message.clone();
        tampered[at] ^= 1;
        assert_eq!(verifier.verify(&tampered, &sig), Ok(false));
    }
}

#[test]
fn ed25519_rejects_a_signature_with_one_byte_flipped() {
    let signer = Ed25519Signer::new(&SECRET_KEY);
    let verifier = Ed25519Verifier::new(&PUBLIC_KEY);
    let sig = signer.sign(b"hello world!").unwrap();
    for at in 0..sig.len() {
        let mut wrong = sig.clone();
        wrong[at] ^= 1;
        assert_eq!(verifier.verify(b"hello world!", &wrong), Ok(false));
    }
}

#[test]
fn ed25519_refuses_a_signature_of_ten_bytes() {
    let verifier = Ed25519Verifier::new(&PUBLIC_KEY);
    assert_eq!(verifier.verify(b"hello world!", &[0u8; 10]), Err(TextError::SignatureLength));
    assert_eq!(verifier.verify(b"hello world!", &[0u8; 63]), Err(TextError::SignatureLength));
    assert_eq!(verifier.verify(b"hello world!", &[0u8; 65]), Err(TextError::SignatureLength));
    assert_eq!(verifier.verify(b"hello world!", &[]), Err(TextError::SignatureLength));
    assert_eq!(
        verify_signature(b"hello world!", &PUBLIC_KEY, TextSignFormat::Ed25519, &[0u8; 10]),
        Err(TextError::SignatureLength)
    );
}

#[test]
fn short_keys_are_refused() {
    let short = [7u8; 31];
    assert_eq!(Blake3::try_new(&short).err(), Some(TextError::KeyTooShort));
    assert_eq!(Blake3::load(&short).err(), Some(TextError::KeyTooShort));
    assert_eq!(Ed25519Signer::try_new(&short).err(), Some(TextError::KeyTooShort));
    assert_eq!(Ed25519Signer::load(&short).err(), Some(TextError::KeyTooShort));
    assert_eq!(Ed25519Verifier::try_new(&short).err(), Some(TextError::KeyTooShort));
    assert_eq!(Ed25519Verifier::load(&short).err(), Some(TextError::KeyTooShort));
    assert_eq!(Blake3::try_new(&[]).err(), Some(TextError::KeyTooShort));
    assert_eq!(Blake3::try_new(&[7u8; 16]).err(), Some(TextError::KeyTooShort));
}

#[test]
fn long_keys_give_their_first_32_bytes() {
    let mut long = KEY.as_bytes().to_vec();
    long.extend_from_slice(b" and more");
    let exact = Blake3::try_new(KEY.as_bytes()).unwrap();
    let cut = Blake3::try_new(&long).unwrap();
    assert_eq!(exact.sign(b"hello world!"), cut.sign(b"hello world!"));

    let mut long = SECRET_KEY.to_vec();
    long.push(0);
    let exact = Ed25519Signer::try_new(&SECRET_KEY).unwrap();
    let cut = Ed25519Signer::try_new(&long).unwrap();
    assert_eq!(exact.sign(b"hello world!"), cut.sign(b"hello world!"));

    let mut long = PUBLIC_KEY.to_vec();
    long.push(0);
    let sig = exact.sign(b"hello world!").unwrap();
    let cut = Ed25519Verifier::try_new(&long).unwrap();
    assert_eq!(cut.verify(b"hello world!", &sig), Ok(true));
}

#[test]
fn bytes_that_encode_no_point_are_no_public_key() {
    let mut refused = 0;
    let mut accepted = 0;
    for y in 0..=255u8 {
        let mut bytes = [0u8; 32];
        bytes[0] = y;
        match Ed25519Verifier::try_new(&bytes) {
            Ok(_) => accepted += 1,
            Err(e) => {
                assert_eq!(e, TextError::InvalidPublicKey);
                refused += 1;
            }
        }
    }
    assert!(refused > 0);
    assert!(accepted > 0);
    assert!(Ed25519Verifier::try_new(&PUBLIC_KEY).is_ok());
}

#[test]
fn key_prefix_takes_32_bytes() {
    let bytes: Vec<u8> = (0..40u8).collect();
    let expected: Vec<u8> = (0..32u8).collect();
    assert_eq!(key_prefix(&bytes).to_vec(), expected);
    assert_eq!(key_prefix(&bytes[..32]).to_vec(), expected);
}

#[test]
fn signature_array_takes_all_64_bytes() {
    let bytes: Vec<u8> = (100..164u8).collect();
    assert_eq!(signature_array(&bytes).to_vec(), bytes);
}

#[test]
fn bytes_equal_compares_whole_slices() {
    assert!(bytes_equal(b"", b""));
    assert!(bytes_equal(b"abc", b"abc"));
    assert!(!bytes_equal(b"abc", b"abd"));
    assert!(!bytes_equal(b"abc", b"ab"));
    assert!(!bytes_equal(b"ab", b"abc"));
}

#[test]
fn signature_text_round_trips() {
    for len in [32usize, 64] {
        let sig: Vec<u8> = (0..len).map(|i| (i * 37 + 11) as u8).collect();
        let text = encode_signature(&sig);
        assert!(text.bytes().all(|c| c.is_ascii_alphanumeric() || c == b'-' || c == b'_'));
        assert_eq!(decode_signature(&text), Ok(sig));
    }
    assert_eq!(encode_signature(&[0xfb, 0xff]), "-_8");
    assert_eq!(decode_signature("-_8"), Ok(vec![0xfb, 0xff]));
}

#[test]
fn signature_of_64_bytes_round_trips() {
    let signer = Ed25519Signer::new(&SECRET_KEY);
    let sig = signer.sign(b"hello world!").unwrap();
    let text = encode_signature(&sig);
    assert_eq!(text.len(), 86);
    assert_eq!(decode_signature(&text), Ok(sig));
}

#[test]
fn signature_text_must_be_url_safe_base64() {
    assert_eq!(decode_signature("+/8"), Err(TextError::SignatureEncoding));
    assert_eq!(decode_signature("-_8="), Err(TextError::SignatureEncoding));
    assert_eq!(decode_signature("not a signature"), Err(TextError::SignatureEncoding));
    assert_eq!(
        process_verify(b"hello world!", KEY.as_bytes(), TextSignFormat::Blake3, "+/8"),
        Err(TextError::SignatureEncoding)
    );
    assert_eq!(
        process_verify(b"hello world!", &[0u8; 16], TextSignFormat::Blake3, "+/8"),
        Err(TextError::SignatureEncoding)
    );
}

#[test]
fn process_sign_then_verify_with_blake3() {
    let text = process_sign(b"hello world!", KEY.as_bytes(), TextSignFormat::Blake3).unwrap();
    assert_eq!(text.len(), 43);
    let key: [u8; 32] = KEY.as_bytes().try_into().unwrap();
    let tag = blake3::keyed_hash(&key, b"hello world!");
    assert_eq!(decode_signature(&text), Ok(tag.as_bytes().to_vec()));
    assert_eq!(
        process_verify(b"hello world!", KEY.as_bytes(), TextSignFormat::Blake3, &text),
        Ok(true)
    );
    assert_eq!(
        process_verify(b"hello world?", KEY.as_bytes(), TextSignFormat::Blake3, &text),
        Ok(false)
    );
}

#[test]
fn process_sign_then_verify_with_ed25519() {
    let text = process_sign(b"hello world!", &SECRET_KEY, TextSignFormat::Ed25519).unwrap();
    assert_eq!(text.len(), 86);
    assert_eq!(
        process_verify(b"hello world!", &PUBLIC_KEY, TextSignFormat::Ed25519, &text),
        Ok(true)
    );
    assert_eq!(
        process_verify(b"hello world?", &PUBLIC_KEY, TextSignFormat::Ed25519, &text),
        Ok(false)
    );
}

#[test]
fn process_sign_refuses_a_key_of_16_bytes() {
    let key = [7u8; 16];
    assert_eq!(
        process_sign(b"hello world!", &key, TextSignFormat::Blake3),
        Err(TextError::KeyTooShort)
    );
    assert_eq!(
        process_sign(b"hello world!", &key, TextSignFormat::Ed25519),
        Err(TextError::KeyTooShort)
    );
}

#[test]
fn process_verify_reports_each_failure() {
    let sig = encode_signature(&[0u8; 10]);
    assert_eq!(
        process_verify(b"hello world!", &PUBLIC_KEY, TextSignFormat::Ed25519, &sig),
        Err(TextError::SignatureLength)
    );
    assert_eq!(
        process_verify(b"hello world!", &[7u8; 16], TextSignFormat::Ed25519, &sig),
        Err(TextError::KeyTooShort)
    );
    assert_eq!(
        process_verify(b"hello world!", &[7u8; 16], TextSignFormat::Blake3, &sig),
        Err(TextError::KeyTooShort)
    );
    assert_eq!(
        process_verify(b"hello world!", KEY.as_bytes(), TextSignFormat::Blake3, &sig),
        Ok(false)
    );
}

#[test]
fn generated_symmetric_keys_are_32_bytes_and_differ() {
    let one = process_generate(TextSignFormat::Blake3).unwrap();
    let other = process_generate(TextSignFormat::Blake3).unwrap();
    assert_eq!(one.len(), 1);
    assert_eq!(other.len(), 1);
    assert_eq!(one[0].len(), 32);
    assert_eq!(other[0].len(), 32);
    assert_ne!(one[0], other[0]);
    assert!(one[0].iter().all(|c| c.is_ascii_graphic()));
    let signer = Blake3::load(&one[0]).unwrap();
    let sig = signer.sign(b"hello world!").unwrap();
    assert_eq!(signer.verify(b"hello world!", &sig), Ok(true));
    assert_eq!(Blake3::generate_key().unwrap()[0].len(), 32);
}

#[test]
fn password_key_holds_the_password_bytes() {
    assert_eq!(password_key(Ok("pass word".to_string())), Ok(vec![b"pass word".to_vec()]));
    assert_eq!(password_key(Ok(" pass word\n".to_string())), Ok(vec![b"pass word".to_vec()]));
    assert_eq!(password_key(Ok(String::new())), Ok(vec![Vec::new()]));
    assert_eq!(
        password_key(Err(GenPassError::BlankPassword)),
        Err(TextError::Password(GenPassError::BlankPassword))
    );
    assert_eq!(
        password_key(Err(GenPassError::DurationOutOfRange)),
        Err(TextError::Password(GenPassError::DurationOutOfRange))
    );
}

#[test]
fn text_errors_have_their_messages() {
    assert_eq!(TextError::KeyTooShort.message(), "key material is shorter than 32 bytes");
    assert_eq!(TextError::InvalidPublicKey.message(), "key bytes are not a valid public key");
    assert_eq!(TextError::SignatureEncoding.message(), "signature is not URL-safe base64");
    assert_eq!(TextError::SignatureLength.message(), "signature has the wrong length");
    assert_eq!(
        TextError::Password(GenPassError::BlankPassword).message(),
        "Zxcvbn cannot evaluate a blank password"
    );
}
