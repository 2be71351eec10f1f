//! The signed payload: the fixed-point price together with the public key of
//! the identity that signs it. Payload and signature travel inside the
//! unsigned transaction and are verified together by the admission validator.

use vstd::prelude::*;

use crate::crypto::TestAuthId;
use crate::crypto::public_of;
use crate::crypto::signature_of;
use crate::crypto::signature_verifies;

verus! {

/// The four little-endian bytes of a 32-bit integer.
pub open spec fn u32_le_bytes(x: u32) -> Seq<u8> {
    seq![
        (x & 0xff) as u8,
        ((x >> 8) & 0xff) as u8,
        ((x >> 16) & 0xff) as u8,
        ((x >> 24) & 0xff) as u8,
    ]
}

/// The payload of one submission attempt. Immutable once constructed.
#[derive(Clone, Copy, PartialEq, Eq, Debug)]
pub struct Payload {
    price: u32,
    public: [u8; 32],
}

/// Relies on parity_scale_codec::Encode for (u32, [u8; 32]): the codec
/// writes a u32 as its four little-endian bytes and a byte array as its
/// bytes, fields in order and nothing else.
#[verifier::external_body]
fn scale_encode_payload(price: u32, public: &[u8; 32]) -> (r: Vec<u8>)
    ensures
        r@ == u32_le_bytes(price) + public@,
{
    parity_scale_codec::Encode::encode(&(price, *public))
}

impl Payload {
    pub closed spec fn spec_price(&self) -> u32 {
        self.price
    }

    pub closed spec fn spec_public(&self) -> [u8; 32] {
        self.public
    }

    /// The byte string that is signed and verified: the payload's encoding.
    pub open spec fn encoding(&self) -> Seq<u8> {
        u32_le_bytes(self.spec_price()) + self.spec_public()@
    }

    pub fn new(price: u32, public: [u8; 32]) -> (p: Payload)
        ensures
            p.spec_price() == price,
            p.spec_public() == public,
    {
        Payload { price, public }
    }

    pub fn price(&self) -> (r: u32)
        ensures
            r == self.spec_price(),
    {
        self.price
    }

    /// The identity whose signature must accompany this payload.
    pub fn public(&self) -> (r: [u8; 32])
        ensures
            r == self.spec_public(),
    {
        self.public
    }

    pub fn encode(&self) -> (r: Vec<u8>)
        ensures
            r@ == self.encoding(),
    {
        scale_encode_payload(self.price, &self.public)
    }

    /// Sign this payload's encoding with the given seed.
    pub fn sign(&self, seed: &[u8; 32]) -> (sig: [u8; 64])
        ensures
            sig@ == signature_of(seed@, self.encoding()),
            signature_verifies(public_of(seed@), self.encoding(), sig@),
    {
        let enc = self.encode();
        TestAuthId::sign(seed, enc.as_slice())
    }

    /// Check the signature against this payload's encoding and its own
    /// declared public key — the two are verified together, atomically.
    pub fn verify(&self, sig: &[u8; 64]) -> (r: bool)
        ensures
            r == signature_verifies(self.spec_public()@, self.encoding(), sig@),
    {
        let enc = self.encode();
        TestAuthId::verify(&self.public, enc.as_slice(), sig)
    }
}

} // verus!
