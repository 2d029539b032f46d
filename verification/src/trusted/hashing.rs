//! Calls into `blake3`.

use vstd::prelude::*;

verus! {

/// The BLAKE3 keyed hash of `message` under the 32-byte `key`, as the `blake3`
/// crate computes it. Only meaningful for keys of exactly 32 bytes.
pub uninterp spec fn blake3_keyed_hash(key: Seq<u8>, message: Seq<u8>) -> Seq<u8>;

/// Calls `blake3::keyed_hash` and hands back the 32 raw bytes of the `Hash`.
///
/// Trusted: the result is a function of the key and the message alone, which
/// `blake3_keyed_hash` names. Nothing is claimed about its value.
#[verifier::external_body]
pub(crate) fn keyed_hash(key: &[u8; 32], message: &[u8]) -> (tag: [u8; 32])
    ensures
        tag@ == blake3_keyed_hash(key@, message@),
{
    *::blake3::keyed_hash(key, message).as_bytes()
}

} // verus!
