//! Signing and verifying whole messages, with one of two schemes: the BLAKE3
//! keyed hash under a secret 32-byte key, or Ed25519 under a pair of a private
//! and a public key of 32 bytes each.
//!
//! A raw signature has 32 bytes under the keyed hash and 64 under Ed25519. It
//! travels as text, in URL-safe base64 without padding. A verifier takes the
//! signature it is given whole: it is not cut down to any length first, so a
//! signature of the wrong length never verifies.

use vstd::prelude::*;
use vstd::slice::slice_to_vec;
use vstd::utf8::encode_utf8;
use crate::cli::text::TextSignFormat;
use crate::process::gen_pass::{is_password, process_genpass, GenPassError};
use crate::trusted::encoding::{
    base64_len, decode_url_safe, encode_url_safe, url_safe_char, url_safe_decoding,
    url_safe_encoding,
};
use crate::trusted::hashing::{blake3_keyed_hash, keyed_hash};
use crate::trusted::text::{trim, trimmed, visible};
use crate::trusted::signing::{
    ed25519_key_valid, ed25519_public_key, ed25519_signature, ed25519_verifies, is_public_key,
    public_key_of, random_secret_key, sign_message, verify_message,
};

verus! {

/// Number of bytes of key material that every scheme uses.
pub const KEY_LEN: usize = 32;

/// Number of bytes of an Ed25519 signature.
pub const ED25519_SIGNATURE_LEN: usize = 64;

/// Why a text operation was refused.
#[derive(Clone, Copy, Debug, PartialEq, Eq, Structural)]
pub enum TextError {
    /// The key material holds fewer than 32 bytes.
    KeyTooShort,
    /// The 32 key bytes are not the encoding of a curve point.
    InvalidPublicKey,
    /// The signature text is not URL-safe unpadded base64.
    SignatureEncoding,
    /// The signature bytes do not have the length the scheme demands.
    SignatureLength,
    /// No password came out to serve as a symmetric key.
    Password(GenPassError),
}

impl TextError {
    /// The text shown for this error.
    pub fn message(&self) -> (text: &'static str)
        ensures
            text@ == match *self {
                TextError::KeyTooShort => "key material is shorter than 32 bytes"@,
                TextError::InvalidPublicKey => "key bytes are not a valid public key"@,
                TextError::SignatureEncoding => "signature is not URL-safe base64"@,
                TextError::SignatureLength => "signature has the wrong length"@,
                TextError::Password(GenPassError::BlankPassword) =>
                    "Zxcvbn cannot evaluate a blank password"@,
                TextError::Password(GenPassError::DurationOutOfRange) =>
                    "Zxcvbn calculation time created a duration out of range"@,
            },
    {
        match self {
            TextError::KeyTooShort => "key material is shorter than 32 bytes",
            TextError::InvalidPublicKey => "key bytes are not a valid public key",
            TextError::SignatureEncoding => "signature is not URL-safe base64",
            TextError::SignatureLength => "signature has the wrong length",
            TextError::Password(e) => e.message(),
        }
    }
}

/// Produces a signature over a fully buffered message.
pub trait TextSign {
    /// The signature this signer puts on `message`.
    spec fn signature(&self, message: Seq<u8>) -> Seq<u8>;

    /// Signs `message` and returns the raw signature bytes.
    fn sign(&self, message: &[u8]) -> (res: Result<Vec<u8>, TextError>)
        ensures
            res is Ok,
            res.unwrap()@ == self.signature(message@),
    ;
}

/// Checks a signature against a fully buffered message.
pub trait TextVerify {
    /// What checking `sig` against `message` comes to: a refusal of the
    /// signature's shape, or whether it is the message's signature.
    spec fn verdict(&self, message: Seq<u8>, sig: Seq<u8>) -> Result<bool, TextError>;

    /// Checks the raw signature bytes `sig` against `message`, taking the
    /// bytes as they are.
    fn verify(&self, message: &[u8], sig: &[u8]) -> (res: Result<bool, TextError>)
        ensures
            res == self.verdict(message@, sig@),
    ;
}

/// Builds key material from the raw bytes of a key file.
pub trait KeyLoader: Sized + View<V = Seq<u8>> {
    /// The key material that `bytes` yield, or why they yield none.
    spec fn spec_load(bytes: Seq<u8>) -> Result<Seq<u8>, TextError>;

    /// Builds the key from the first 32 of `bytes`; fewer are an error.
    fn load(bytes: &[u8]) -> (res: Result<Self, TextError>)
        ensures
            match res {
                Ok(key) => Self::spec_load(bytes@) == Ok::<Seq<u8>, TextError>(key@),
                Err(e) => Self::spec_load(bytes@) == Err::<Seq<u8>, TextError>(e),
            },
    ;
}

/// Makes new key material for a scheme.
pub trait KeyGenerator {
    /// What holds of the blobs of every freshly made key.
    spec fn well_generated(keys: Seq<Seq<u8>>) -> bool;

    /// Makes a new key and returns its blobs, the secret one first.
    fn generate_key() -> (res: Result<Vec<Vec<u8>>, TextError>)
        ensures
            res is Ok ==> Self::well_generated(res.unwrap().deep_view()),
    ;
}

/// The first 32 bytes of `bytes`, or `KeyTooShort` where there are fewer: what
/// every scheme takes from a key file.
pub open spec fn key_material(bytes: Seq<u8>) -> Result<Seq<u8>, TextError> {
    if bytes.len() < 32 {
        Err(TextError::KeyTooShort)
    } else {
        Ok(bytes.take(32))
    }
}

/// `true` when `a` and `b` hold the same bytes.
pub fn bytes_equal(a: &[u8], b: &[u8]) -> (same: bool)
    ensures
        same == (a@ == b@),
{
    if a.len() != b.len() {
        return false;
    }
    let mut i: usize = 0;
    while i < a.len()
        invariant
            a.len() == b.len(),
            i <= a.len(),
            forall|j: int| 0 <= j < i ==> a@[j] == b@[j],
        decreases a.len() - i,
    {
        if a[i] != b[i] {
            return false;
        }
        i += 1;
    }
    assert(a@ =~= b@);
    true
}

/// The first 32 bytes of `bytes`, as an array.
pub fn key_prefix(bytes: &[u8]) -> (key: [u8; 32])
    requires
        bytes@.len() >= 32,
    ensures
        key@ == bytes@.take(32),
{
    let mut key: [u8; 32] = [0u8; 32];
    let mut i: usize = 0;
    while i < 32
        invariant
            bytes@.len() >= 32,
            i <= 32,
            forall|j: int| 0 <= j < i ==> key@[j] == bytes@[j],
        decreases 32 - i,
    {
        key[i] = bytes[i];
        i += 1;
    }
    assert(key@ =~= bytes@.take(32));
    key
}

/// All 64 bytes of `bytes`, as an array.
pub fn signature_array(bytes: &[u8]) -> (sig: [u8; 64])
    requires
        bytes@.len() == 64,
    ensures
        sig@ == bytes@,
{
    let mut sig: [u8; 64] = [0u8; 64];
    let mut i: usize = 0;
    while i < 64
        invariant
            bytes@.len() == 64,
            i <= 64,
            forall|j: int| 0 <= j < i ==> sig@[j] == bytes@[j],
        decreases 64 - i,
    {
        sig[i] = bytes[i];
        i += 1;
    }
    assert(sig@ =~= bytes@);
    sig
}

/// Symmetric scheme: a 32-byte key for the BLAKE3 keyed hash.
pub struct Blake3 {
    key: [u8; 32],
}

/// Asymmetric scheme, signing half: the 32-byte private key.
pub struct Ed25519Signer {
    key: [u8; 32],
}

/// Asymmetric scheme, verifying half: a 32-byte public key. Only bytes that
/// encode a curve point are ever held.
pub struct Ed25519Verifier {
    key: [u8; 32],
}

impl View for Blake3 {
    type V = Seq<u8>;

    closed spec fn view(&self) -> Seq<u8> {
        self.key@
    }
}

impl View for Ed25519Signer {
    type V = Seq<u8>;

    closed spec fn view(&self) -> Seq<u8> {
        self.key@
    }
}

impl View for Ed25519Verifier {
    type V = Seq<u8>;

    closed spec fn view(&self) -> Seq<u8> {
        self.key@
    }
}

impl TextSign for Blake3 {
    open spec fn signature(&self, message: Seq<u8>) -> Seq<u8> {
        blake3_keyed_hash(self@, message)
    }

    fn sign(&self, message: &[u8]) -> (res: Result<Vec<u8>, TextError>)
        ensures
            res.unwrap()@.len() == 32,
    {
        let tag = keyed_hash(&self.key, message);
        Ok(slice_to_vec(tag.as_slice()))
    }
}

impl TextVerify for Blake3 {
    open spec fn verdict(&self, message: Seq<u8>, sig: Seq<u8>) -> Result<bool, TextError> {
        Ok(sig == blake3_keyed_hash(self@, message))
    }

    fn verify(&self, message: &[u8], sig: &[u8]) -> (res: Result<bool, TextError>)
        ensures
            sig@.len() != 32 ==> res == Ok::<bool, TextError>(false),
    {
        let tag = keyed_hash(&self.key, message);
        Ok(bytes_equal(tag.as_slice(), sig))
    }
}

impl TextSign for Ed25519Signer {
    open spec fn signature(&self, message: Seq<u8>) -> Seq<u8> {
        ed25519_signature(self@, message)
    }

    fn sign(&self, message: &[u8]) -> (res: Result<Vec<u8>, TextError>)
        ensures
            res.unwrap()@.len() == 64,
            ed25519_verifies(ed25519_public_key(self@), message@, res.unwrap()@),
    {
        let sig = sign_message(&self.key, message);
        Ok(slice_to_vec(sig.as_slice()))
    }
}

impl TextVerify for Ed25519Verifier {
    open spec fn verdict(&self, message: Seq<u8>, sig: Seq<u8>) -> Result<bool, TextError> {
        if sig.len() != 64 {
            Err(TextError::SignatureLength)
        } else {
            Ok(ed25519_verifies(self@, message, sig))
        }
    }

    fn verify(&self, message: &[u8], sig: &[u8]) -> (res: Result<bool, TextError>) {
        if sig.len() != ED25519_SIGNATURE_LEN {
            return Err(TextError::SignatureLength);
        }
        proof {
            use_type_invariant(self);
        }
        let sig = signature_array(sig);
        Ok(verify_message(&self.key, message, &sig))
    }
}

impl KeyLoader for Blake3 {
    open spec fn spec_load(bytes: Seq<u8>) -> Result<Seq<u8>, TextError> {
        key_material(bytes)
    }

    fn load(bytes: &[u8]) -> (res: Result<Self, TextError>) {
        Self::try_new(bytes)
    }
}

impl KeyLoader for Ed25519Signer {
    open spec fn spec_load(bytes: Seq<u8>) -> Result<Seq<u8>, TextError> {
        key_material(bytes)
    }

    fn load(bytes: &[u8]) -> (res: Result<Self, TextError>) {
        Self::try_new(bytes)
    }
}

impl KeyLoader for Ed25519Verifier {
    open spec fn spec_load(bytes: Seq<u8>) -> Result<Seq<u8>, TextError> {
        match key_material(bytes) {
            Ok(key) => if ed25519_key_valid(key) {
                Ok(key)
            } else {
                Err(TextError::InvalidPublicKey)
            },
            Err(e) => Err(e),
        }
    }

    fn load(bytes: &[u8]) -> (res: Result<Self, TextError>) {
        Self::try_new(bytes)
    }
}

impl KeyGenerator for Blake3 {
    /// One blob: the 32 bytes of a password drawn from all four character
    /// classes.
    open spec fn well_generated(keys: Seq<Seq<u8>>) -> bool {
        &&& keys.len() == 1
        &&& is_password(keys[0], 32, true, true, true, true)
    }

    fn generate_key() -> (res: Result<Vec<Vec<u8>>, TextError>)
        ensures
            res is Err ==> res == Err::<Vec<Vec<u8>>, TextError>(
                TextError::Password(GenPassError::DurationOutOfRange),
            ),
    {
        password_key(process_genpass(32, true, true, true, true))
    }
}

/// The one blob of a symmetric key: the bytes of the password that was
/// generated for it, without the white space at its ends. A password of
/// visible characters has none, so all its bytes make the key. Where no
/// password was generated, the reason is passed on.
pub fn password_key(generated: Result<String, GenPassError>) -> (res: Result<
    Vec<Vec<u8>>,
    TextError,
>)
    ensures
        match generated {
            Ok(password) => {
                &&& res is Ok
                &&& res.unwrap().deep_view() == seq![encode_utf8(trimmed(password@))]
                &&& (forall|i: int| 0 <= i < password@.len() ==> visible(#[trigger] password@[i]))
                    ==> res.unwrap().deep_view() == seq![encode_utf8(password@)]
            },
            Err(e) => res == Err::<Vec<Vec<u8>>, TextError>(TextError::Password(e)),
        },
{
    match generated {
        Ok(password) => {
            let key = slice_to_vec(trim(password.as_str()).as_bytes());
            let mut keys: Vec<Vec<u8>> = Vec::new();
            keys.push(key);
            assert(keys.deep_view().len() == 1);
            assert(keys.deep_view()[0] == keys@[0]@);
            assert(keys.deep_view() =~= seq![encode_utf8(trimmed(password@))]);
            Ok(keys)
        },
        Err(e) => Err(TextError::Password(e)),
    }
}

impl KeyGenerator for Ed25519Signer {
    /// Two blobs of 32 bytes: the private key, then the public key that
    /// belongs to it.
    open spec fn well_generated(keys: Seq<Seq<u8>>) -> bool {
        &&& keys.len() == 2
        &&& keys[0].len() == 32
        &&& keys[1].len() == 32
        &&& keys[1] == ed25519_public_key(keys[0])
        &&& ed25519_key_valid(keys[1])
    }

    fn generate_key() -> (res: Result<Vec<Vec<u8>>, TextError>)
        ensures
            res is Ok,
    {
        let secret = random_secret_key();
        Ok(keypair_blobs(&secret))
    }
}

/// The two blobs of the key pair whose private half is `secret`: the private
/// key first, the public key second.
pub fn keypair_blobs(secret: &[u8; 32]) -> (keys: Vec<Vec<u8>>)
    ensures
        keys@.len() == 2,
        keys@[0]@ == secret@,
        keys@[1]@ == ed25519_public_key(secret@),
        Ed25519Signer::well_generated(keys.deep_view()),
{
    let public = public_key_of(secret);
    let sk = slice_to_vec(secret.as_slice());
    let pk = slice_to_vec(public.as_slice());
    let mut keys: Vec<Vec<u8>> = Vec::new();
    keys.push(sk);
    keys.push(pk);
    assert(keys.deep_view()[0] == keys@[0]@);
    assert(keys.deep_view()[1] == keys@[1]@);
    keys
}

impl Blake3 {
    /// Holds `key` as it is.
    pub fn new(key: [u8; 32]) -> (signer: Self)
        ensures
            signer@ == key@,
    {
        Self { key }
    }

    /// Takes the first 32 bytes of `key`; fewer are refused.
    pub fn try_new(key: &[u8]) -> (res: Result<Self, TextError>)
        ensures
            match res {
                Ok(signer) => key_material(key@) == Ok::<Seq<u8>, TextError>(signer@),
                Err(e) => key_material(key@) == Err::<Seq<u8>, TextError>(e),
            },
    {
        if key.len() < KEY_LEN {
            Err(TextError::KeyTooShort)
        } else {
            Ok(Self::new(key_prefix(key)))
        }
    }
}

impl Ed25519Signer {
    /// Holds `key` as the private key.
    pub fn new(key: &[u8; 32]) -> (signer: Self)
        ensures
            signer@ == key@,
    {
        Self { key: *key }
    }

    /// Takes the first 32 bytes of `key`; fewer are refused.
    pub fn try_new(key: &[u8]) -> (res: Result<Self, TextError>)
        ensures
            match res {
                Ok(signer) => key_material(key@) == Ok::<Seq<u8>, TextError>(signer@),
                Err(e) => key_material(key@) == Err::<Seq<u8>, TextError>(e),
            },
    {
        if key.len() < KEY_LEN {
            Err(TextError::KeyTooShort)
        } else {
            let prefix = key_prefix(key);
            Ok(Self::new(&prefix))
        }
    }
}

impl Ed25519Verifier {
    #[verifier::type_invariant]
    spec fn holds_a_point(self) -> bool {
        ed25519_key_valid(self.key@)
    }

    /// Holds `key` as the public key. The bytes must encode a curve point.
    pub fn new(key: &[u8; 32]) -> (verifier: Self)
        requires
            ed25519_key_valid(key@),
        ensures
            verifier@ == key@,
    {
        Self { key: *key }
    }

    /// Takes the first 32 bytes of `key`; fewer are refused, and so are 32
    /// bytes that do not encode a curve point.
    pub fn try_new(key: &[u8]) -> (res: Result<Self, TextError>)
        ensures
            match res {
                Ok(verifier) => Self::spec_load(key@) == Ok::<Seq<u8>, TextError>(verifier@),
                Err(e) => Self::spec_load(key@) == Err::<Seq<u8>, TextError>(e),
            },
    {
        if key.len() < KEY_LEN {
            return Err(TextError::KeyTooShort);
        }
        let prefix = key_prefix(key);
        if is_public_key(&prefix) {
            Ok(Self::new(&prefix))
        } else {
            Err(TextError::InvalidPublicKey)
        }
    }
}

/// The text form of raw signature bytes: URL-safe base64 without padding.
/// Decoding the text gives the bytes back.
pub fn encode_signature(sig: &[u8]) -> (text: String)
    requires
        base64_len(sig@.len(), false) <= usize::MAX,
    ensures
        text@ == url_safe_encoding(sig@),
        text@.len() == base64_len(sig@.len(), false),
        forall|i: int| 0 <= i < text@.len() ==> url_safe_char(#[trigger] text@[i]),
        url_safe_decoding(text@) == Some(sig@),
{
    encode_url_safe(sig)
}

/// The raw signature bytes that `text` stands for; text that is not URL-safe
/// unpadded base64 is refused.
pub fn decode_signature(text: &str) -> (res: Result<Vec<u8>, TextError>)
    ensures
        match url_safe_decoding(text@) {
            Some(sig) => res is Ok && res.unwrap()@ == sig,
            None => res == Err::<Vec<u8>, TextError>(TextError::SignatureEncoding),
        },
{
    match decode_url_safe(text) {
        Ok(sig) => Ok(sig),
        Err(_) => Err(TextError::SignatureEncoding),
    }
}

/// The raw signature of `message` under the key that the key file's bytes
/// `key` yield for `format`.
pub open spec fn spec_sign(message: Seq<u8>, key: Seq<u8>, format: TextSignFormat) -> Result<
    Seq<u8>,
    TextError,
> {
    match key_material(key) {
        Ok(k) => match format {
            TextSignFormat::Blake3 => Ok(blake3_keyed_hash(k, message)),
            TextSignFormat::Ed25519 => Ok(ed25519_signature(k, message)),
        },
        Err(e) => Err(e),
    }
}

/// What checking the raw signature `sig` against `message` comes to, under the
/// key that the key file's bytes `key` yield for `format`.
pub open spec fn spec_verify(
    message: Seq<u8>,
    key: Seq<u8>,
    format: TextSignFormat,
    sig: Seq<u8>,
) -> Result<bool, TextError> {
    match format {
        TextSignFormat::Blake3 => match Blake3::spec_load(key) {
            Ok(k) => Ok(sig == blake3_keyed_hash(k, message)),
            Err(e) => Err(e),
        },
        TextSignFormat::Ed25519 => match Ed25519Verifier::spec_load(key) {
            Ok(k) => if sig.len() != 64 {
                Err(TextError::SignatureLength)
            } else {
                Ok(ed25519_verifies(k, message, sig))
            },
            Err(e) => Err(e),
        },
    }
}

/// Signs `message` with the key held in the key file's bytes `key` and
/// returns the signature as text.
pub fn process_sign(message: &[u8], key: &[u8], format: TextSignFormat) -> (res: Result<
    String,
    TextError,
>)
    ensures
        match spec_sign(message@, key@, format) {
            Ok(sig) => {
                &&& res is Ok
                &&& res.unwrap()@ == url_safe_encoding(sig)
                &&& url_safe_decoding(res.unwrap()@) == Some(sig)
                &&& sig.len() == format.signature_len()
                &&& res.unwrap()@.len() == base64_len(format.signature_len(), false)
                &&& forall|i: int|
                    0 <= i < res.unwrap()@.len() ==> url_safe_char(#[trigger] res.unwrap()@[i])
            },
            Err(e) => res == Err::<String, TextError>(e),
        },
{
    let signed = match format {
        TextSignFormat::Blake3 => {
            let signer = Blake3::load(key)?;
            signer.sign(message)?
        },
        TextSignFormat::Ed25519 => {
            let signer = Ed25519Signer::load(key)?;
            signer.sign(message)?
        },
    };
    Ok(encode_signature(signed.as_slice()))
}

/// Checks the raw signature `sig` against `message` with the key held in the
/// key file's bytes `key`. The signature is taken whole, at the length it
/// has, and never cut down to the length of the scheme: under the keyed hash
/// any length but 32 is a mismatch, under Ed25519 any length but 64 an error.
pub fn verify_signature(message: &[u8], key: &[u8], format: TextSignFormat, sig: &[u8]) -> (res:
    Result<bool, TextError>)
    ensures
        res == spec_verify(message@, key@, format, sig@),
        res == Ok::<bool, TextError>(true) ==> sig@.len() == format.signature_len(),
{
    match format {
        TextSignFormat::Blake3 => {
            let verifier = Blake3::load(key)?;
            verifier.verify(message, sig)
        },
        TextSignFormat::Ed25519 => {
            let verifier = Ed25519Verifier::load(key)?;
            verifier.verify(message, sig)
        },
    }
}

/// Checks the signature text `sign` against `message` with the key held in
/// the key file's bytes `key`. A mismatch is `Ok(false)`, not an error. The
/// text is decoded before the key is looked at, and the decoded signature is
/// taken whole.
pub fn process_verify(message: &[u8], key: &[u8], format: TextSignFormat, sign: &str) -> (res:
    Result<bool, TextError>)
    ensures
        res == match url_safe_decoding(sign@) {
            Some(sig) => spec_verify(message@, key@, format, sig),
            None => Err(TextError::SignatureEncoding),
        },
        res == Ok::<bool, TextError>(true) ==> url_safe_decoding(sign@).unwrap().len()
            == format.signature_len(),
{
    let sig = decode_signature(sign)?;
    verify_signature(message, key, format, sig.as_slice())
}

/// Makes a new key for `format` and returns its blobs: one for the keyed
/// hash, two for Ed25519, the private key before the public one.
pub fn process_generate(format: TextSignFormat) -> (res: Result<Vec<Vec<u8>>, TextError>)
    ensures
        match format {
            TextSignFormat::Blake3 => match res {
                Ok(keys) => Blake3::well_generated(keys.deep_view()),
                Err(e) => e == TextError::Password(GenPassError::DurationOutOfRange),
            },
            TextSignFormat::Ed25519 => res is Ok && Ed25519Signer::well_generated(
                res.unwrap().deep_view(),
            ),
        },
        res is Ok ==> res.unwrap()@.len() == format.blob_count(),
{
    match format {
        TextSignFormat::Blake3 => Blake3::generate_key(),
        TextSignFormat::Ed25519 => Ed25519Signer::generate_key(),
    }
}

/// A keyed-hash verifier accepts the signature that the same key puts on the
/// same message.
pub proof fn lemma_blake3_accepts_own_signature(key: Blake3, message: Seq<u8>)
    ensures
        key.verdict(message, key.signature(message)) == Ok::<bool, TextError>(true),
{
}

/// Under the keyed hash, the raw signature that a key file puts on a message
/// verifies against that message with the same key file.
pub proof fn lemma_blake3_signed_message_verifies(message: Seq<u8>, key: Seq<u8>)
    requires
        spec_sign(message, key, TextSignFormat::Blake3) is Ok,
    ensures
        spec_verify(
            message,
            key,
            TextSignFormat::Blake3,
            spec_sign(message, key, TextSignFormat::Blake3).unwrap(),
        ) == Ok::<bool, TextError>(true),
{
}

/// A keyed-hash verifier answers `false`, and never `true`, to the signature
/// of another message, unless the two messages have the same keyed hash.
pub proof fn lemma_blake3_rejects_other_message(key: Blake3, signed: Seq<u8>, shown: Seq<u8>)
    requires
        blake3_keyed_hash(key@, signed) != blake3_keyed_hash(key@, shown),
    ensures
        key.verdict(shown, key.signature(signed)) == Ok::<bool, TextError>(false),
{
}

/// Key bytes shorter than 32 bytes are refused by every loader; longer ones
/// yield exactly their first 32 bytes, nothing cut from or added to them.
pub proof fn lemma_load_takes_32_bytes(bytes: Seq<u8>)
    ensures
        bytes.len() < 32 ==> {
            &&& Blake3::spec_load(bytes) == Err::<Seq<u8>, TextError>(TextError::KeyTooShort)
            &&& Ed25519Signer::spec_load(bytes) == Err::<Seq<u8>, TextError>(
                TextError::KeyTooShort,
            )
            &&& Ed25519Verifier::spec_load(bytes) == Err::<Seq<u8>, TextError>(
                TextError::KeyTooShort,
            )
        },
        bytes.len() >= 32 ==> {
            &&& Blake3::spec_load(bytes) == Ok::<Seq<u8>, TextError>(bytes.take(32))
            &&& Ed25519Signer::spec_load(bytes) == Ok::<Seq<u8>, TextError>(bytes.take(32))
            &&& Ed25519Verifier::spec_load(bytes) is Ok ==> Ed25519Verifier::spec_load(bytes)
                == Ok::<Seq<u8>, TextError>(bytes.take(32))
        },
{
}

} // verus!
