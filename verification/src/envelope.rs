//! The envelope: the authenticated-encrypted container a sealing call
//! produces, together with its mathematical view and its exact wire layout.

use vstd::bytes::spec_u32_to_le_bytes;
use vstd::prelude::*;

use crate::ALG_AES256GCM;
use crate::HEADER_LEN;
use crate::NONCE_LEN;
use crate::SALT_LEN;
use crate::TAG_LEN;

verus! {

/// The mathematical view of an envelope.
#[verifier::ext_equal]
pub ghost struct EnvelopeView {
    pub alg: u32,
    pub salt: Seq<u8>,
    pub nonce: Seq<u8>,
    pub aad: Seq<u8>,
    pub ciphertext: Seq<u8>,
    pub tag: Seq<u8>,
}

/// An envelope as built by sealing or decoding: the header fields, the
/// associated data (authenticated, not encrypted), the ciphertext and the
/// authentication tag.
pub struct Envelope {
    pub alg: u32,
    pub salt: Vec<u8>,
    pub nonce: Vec<u8>,
    pub aad: Vec<u8>,
    pub ciphertext: Vec<u8>,
    pub tag: Vec<u8>,
}

impl View for Envelope {
    type V = EnvelopeView;

    open spec fn view(&self) -> EnvelopeView {
        EnvelopeView {
            alg: self.alg,
            salt: self.salt@,
            nonce: self.nonce@,
            aad: self.aad@,
            ciphertext: self.ciphertext@,
            tag: self.tag@,
        }
    }
}

/// Structural well-formedness: the fixed-length fields have their declared
/// lengths, the variable regions fit the header's 32-bit length fields, and
/// the algorithm identifier is the one this library writes.
pub open spec fn env_wf(v: EnvelopeView) -> bool {
    &&& v.alg == ALG_AES256GCM
    &&& v.salt.len() == SALT_LEN
    &&& v.nonce.len() == NONCE_LEN
    &&& v.tag.len() == TAG_LEN
    &&& v.aad.len() <= u32::MAX
    &&& v.ciphertext.len() <= u32::MAX
}

/// The exact wire form of an envelope: a fixed header — plaintext length,
/// associated-data length, algorithm identifier, key-derivation descriptor
/// (salt and nonce), tag length, all little-endian — followed by the
/// associated data, the ciphertext and the tag.
pub open spec fn encoding_of(v: EnvelopeView) -> Seq<u8> {
    spec_u32_to_le_bytes(v.ciphertext.len() as u32) + spec_u32_to_le_bytes(v.aad.len() as u32)
        + spec_u32_to_le_bytes(v.alg) + v.salt + v.nonce + spec_u32_to_le_bytes(v.tag.len() as u32)
        + v.aad + v.ciphertext + v.tag
}

/// The exact number of bytes the encoded envelope occupies.
pub open spec fn required_size(v: EnvelopeView) -> int {
    HEADER_LEN + v.aad.len() + v.ciphertext.len() + v.tag.len()
}

/// The envelope's encoding stands at the front of `bytes`.
pub open spec fn is_encoding_prefix(v: EnvelopeView, bytes: Seq<u8>) -> bool {
    encoding_of(v).is_prefix_of(bytes)
}

/// A well-formed envelope's encoding occupies exactly its required size.
pub proof fn lemma_encoding_len(v: EnvelopeView)
    requires
        env_wf(v),
    ensures
        encoding_of(v).len() == required_size(v),
        required_size(v) >= HEADER_LEN + TAG_LEN,
{
    vstd::bytes::lemma_auto_spec_u32_to_from_le_bytes();
}

} // verus!
