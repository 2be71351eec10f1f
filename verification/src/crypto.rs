//! The signature scheme behind the signed payload: a capability of three
//! operations — derive a public key from a seed, sign bytes, verify a
//! signature — bound here to one concrete elliptic-curve scheme.

use vstd::prelude::*;

use ed25519_dalek::Signer;
use ed25519_dalek::Verifier;

verus! {

/// The public key that the scheme derives from a 32-byte secret seed; a
/// function of the seed alone.
pub uninterp spec fn public_of(seed: Seq<u8>) -> Seq<u8>;

/// The signature that the scheme produces for a message under a seed; the
/// scheme signs deterministically, so this is a function of the two alone.
pub uninterp spec fn signature_of(seed: Seq<u8>, msg: Seq<u8>) -> Seq<u8>;

/// Whether the scheme accepts `sig` as a signature on `msg` under the public
/// key `public`; a function of the three alone.
pub uninterp spec fn signature_verifies(public: Seq<u8>, msg: Seq<u8>, sig: Seq<u8>) -> bool;

/// The module's crypto identity type: it fixes the signature scheme that
/// payload signing and the admission validator agree on.
pub struct TestAuthId;

impl TestAuthId {
    /// Relies on ed25519_dalek::SigningKey::verifying_key: the public key is
    /// derived from the secret key alone, deterministically.
    #[verifier::external_body]
    pub fn public(seed: &[u8; 32]) -> (r: [u8; 32])
        ensures
            r@ == public_of(seed@),
    {
        ed25519_dalek::SigningKey::from_bytes(seed).verifying_key().to_bytes()
    }

    /// Relies on ed25519_dalek::SigningKey's Signer impl: signing follows
    /// RFC 8032, is deterministic in seed and message, cannot fail, and the
    /// produced signature verifies under the key derived from the seed.
    #[verifier::external_body]
    pub fn sign(seed: &[u8; 32], msg: &[u8]) -> (r: [u8; 64])
        ensures
            r@ == signature_of(seed@, msg@),
            signature_verifies(public_of(seed@), msg@, r@),
    {
        ed25519_dalek::SigningKey::from_bytes(seed).sign(msg).to_bytes()
    }

    /// Relies on ed25519_dalek::VerifyingKey's Verifier impl: verification
    /// depends on key, message and signature alone. Key bytes that are not a
    /// valid curve point accept no signature.
    #[verifier::external_body]
    pub fn verify(public: &[u8; 32], msg: &[u8], sig: &[u8; 64]) -> (r: bool)
        ensures
            r == signature_verifies(public@, msg@, sig@),
    {
        match ed25519_dalek::VerifyingKey::from_bytes(public) {
            Ok(vk) => vk.verify(msg, &ed25519_dalek::Signature::from_bytes(sig)).is_ok(),
            Err(_) => false,
        }
    }
}

} // verus!
