//! Calls into `ed25519-dalek`.

use vstd::prelude::*;
use ed25519_dalek::{Signature, Signer, SigningKey, Verifier, VerifyingKey};
use rand::rngs::OsRng;

verus! {

/// The Ed25519 signature that the 32-byte secret key `secret` puts on
/// `message`; signing is deterministic, so this is a function of the two.
pub uninterp spec fn ed25519_signature(secret: Seq<u8>, message: Seq<u8>) -> Seq<u8>;

/// The 32-byte public key that belongs to the 32-byte secret key `secret`.
pub uninterp spec fn ed25519_public_key(secret: Seq<u8>) -> Seq<u8>;

/// Whether the 32 bytes `public` are the encoding of a curve point, that is,
/// whether they can serve as a public key at all.
pub uninterp spec fn ed25519_key_valid(public: Seq<u8>) -> bool;

/// Whether the 64 bytes `signature` are accepted as a signature on `message`
/// under the public key `public`.
pub uninterp spec fn ed25519_verifies(public: Seq<u8>, message: Seq<u8>, signature: Seq<u8>) -> bool;

/// Calls `Signer::sign` on the `SigningKey` made of `secret` and hands back the
/// signature's 64 bytes.
///
/// Trusted: the signature is a function of key and message, named by
/// `ed25519_signature`, and it is one that verification accepts under the
/// public half of the same key.
#[verifier::external_body]
pub(crate) fn sign_message(secret: &[u8; 32], message: &[u8]) -> (sig: [u8; 64])
    ensures
        sig@ == ed25519_signature(secret@, message@),
        ed25519_verifies(ed25519_public_key(secret@), message@, sig@),
{
    SigningKey::from_bytes(secret).sign(message).to_bytes()
}

/// Calls `SigningKey::verifying_key` on the `SigningKey` made of `secret` and
/// hands back the public key's 32 bytes.
///
/// Trusted: the public key is a function of the secret key, named by
/// `ed25519_public_key`, and it is the encoding of a curve point.
#[verifier::external_body]
pub(crate) fn public_key_of(secret: &[u8; 32]) -> (public: [u8; 32])
    ensures
        public@ == ed25519_public_key(secret@),
        ed25519_key_valid(public@),
{
    SigningKey::from_bytes(secret).verifying_key().to_bytes()
}

/// Calls `VerifyingKey::from_bytes` and says whether it succeeded.
///
/// Trusted: success depends on the 32 bytes alone; `ed25519_key_valid` names it.
#[verifier::external_body]
pub(crate) fn is_public_key(bytes: &[u8; 32]) -> (ok: bool)
    ensures
        ok == ed25519_key_valid(bytes@),
{
    VerifyingKey::from_bytes(bytes).is_ok()
}

/// Calls `Verifier::verify` on the `VerifyingKey` made of `public`, with the
/// `Signature` made of `sig`, and says whether it returned `Ok`.
///
/// Trusted: the verdict is a function of key, message and signature, named by
/// `ed25519_verifies`.
#[verifier::external_body]
pub(crate) fn verify_message(public: &[u8; 32], message: &[u8], sig: &[u8; 64]) -> (ok: bool)
    requires
        ed25519_key_valid(public@),
    ensures
        ok == ed25519_verifies(public@, message@, sig@),
{
    match VerifyingKey::from_bytes(public) {
        Ok(key) => key.verify(message, &Signature::from_bytes(sig)).is_ok(),
        Err(_) => false,
    }
}

/// Calls `SigningKey::generate` with the operating system's random source and
/// hands back the new secret key's 32 bytes.
///
/// Trusted: nothing. The bytes are random, so two calls may differ.
#[verifier::external_body]
pub(crate) fn random_secret_key() -> [u8; 32] {
    SigningKey::generate(&mut OsRng).to_bytes()
}

} // verus!
