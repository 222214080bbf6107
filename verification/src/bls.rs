//! Verification of the signature by which a section vouches for a message.

use vstd::prelude::*;

verus! {

/// Whether `signature` is, under the BLS key `key`, a signature on
/// `message`: what `safe_nd::PublicKey::verify` finds for a key and a
/// signature of that scheme, each taken from the bytes of its compressed
/// form. Bytes that are no key, or no signature, verify nothing.
pub uninterp spec fn bls_signature_valid(key: Seq<u8>, signature: Seq<u8>, message: Seq<u8>) -> bool;

/// Calls `safe_nd::PublicKey::verify` on the BLS key and the BLS signature
/// that `threshold_crypto`'s `PublicKey::from_bytes` and
/// `Signature::from_bytes` make of `key` and `signature`. It is believed, not
/// proved, that the answer is a matter of the three byte strings alone, and
/// that none of the three calls panics.
#[verifier::external_body]
pub(crate) fn bls_verify(key: &[u8; 48], signature: &[u8; 96], message: &[u8]) -> (valid: bool)
    ensures
        valid == bls_signature_valid(key@, signature@, message@),
{
    match (
        threshold_crypto::PublicKey::from_bytes(key),
        threshold_crypto::Signature::from_bytes(signature),
    ) {
        (Ok(key), Ok(signature)) => safe_nd::PublicKey::Bls(key)
            .verify(&safe_nd::Signature::Bls(signature), message)
            .is_ok(),
        _ => false,
    }
}

} // verus!
