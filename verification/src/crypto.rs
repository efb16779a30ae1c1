//! Trusted bindings to the cryptographic primitives: HMAC-SHA-256 for
//! identity-bound key derivation and AES-256-GCM for authenticated
//! encryption. Each result that is a pure function of the arguments is given
//! an uninterpreted name, and every contract of the library speaks of those
//! names; nothing else is assumed of the primitives.

use aes_gcm::aead::AeadInPlace;
use aes_gcm::KeyInit;
use hmac::Mac;
use vstd::prelude::*;

use crate::KEY_LEN;
use crate::NONCE_LEN;
use crate::TAG_LEN;

verus! {

/// The HMAC-SHA-256 digest of `msg` under `key`: a function of the two alone.
pub uninterp spec fn hmac_sha256_of(key: Seq<u8>, msg: Seq<u8>) -> Seq<u8>;

/// The AES-256-GCM ciphertext for plaintext `pt` under `key` and `nonce`.
pub uninterp spec fn gcm_ct(key: Seq<u8>, nonce: Seq<u8>, pt: Seq<u8>) -> Seq<u8>;

/// The AES-256-GCM decryption (keystream strip) of `ct` under `key` and `nonce`.
pub uninterp spec fn gcm_pt(key: Seq<u8>, nonce: Seq<u8>, ct: Seq<u8>) -> Seq<u8>;

/// The AES-256-GCM authentication tag over `ct` and `aad` under `key` and `nonce`.
pub uninterp spec fn gcm_tag(key: Seq<u8>, nonce: Seq<u8>, ct: Seq<u8>, aad: Seq<u8>) -> Seq<u8>;

/// Relies on `hmac::Hmac<sha2::Sha256>` (`new_from_slice`, `update`,
/// `finalize`): HMAC accepts a key of any length, never fails, and its
/// 32-byte digest depends on the key and message alone.
#[verifier::external_body]
pub(crate) fn hmac_sha256(key: &Vec<u8>, msg: &Vec<u8>) -> (r: Vec<u8>)
    ensures
        r@ == hmac_sha256_of(key@, msg@),
        r@.len() == KEY_LEN,
{
    let mut mac = match <hmac::Hmac<sha2::Sha256> as Mac>::new_from_slice(key.as_slice()) {
        Ok(m) => m,
        Err(_) => <hmac::Hmac<sha2::Sha256> as Mac>::new_from_slice(&[]).unwrap(),
    };
    mac.update(msg.as_slice());
    mac.finalize().into_bytes().to_vec()
}

/// Relies on `aes_gcm::Aes256Gcm::encrypt_in_place_detached`: with plaintext
/// and associated data under the GCM size limits it always succeeds; the
/// ciphertext has the plaintext's length and depends on key, nonce and
/// plaintext alone; the 16-byte tag depends on key, nonce, ciphertext and
/// associated data alone; and stripping the keystream from the ciphertext
/// (what decryption does) gives back the plaintext.
#[verifier::external_body]
pub(crate) fn aead_encrypt(key: &Vec<u8>, nonce: &Vec<u8>, pt: &Vec<u8>, aad: &Vec<u8>) -> (r:
    Option<(Vec<u8>, Vec<u8>)>)
    requires
        key@.len() == KEY_LEN,
        nonce@.len() == NONCE_LEN,
        pt@.len() <= u32::MAX,
        aad@.len() <= u32::MAX,
    ensures
        r is Some,
        r matches Some(p) ==> {
            &&& p.0@ == gcm_ct(key@, nonce@, pt@)
            &&& p.0@.len() == pt@.len()
            &&& gcm_pt(key@, nonce@, p.0@) == pt@
            &&& p.1@ == gcm_tag(key@, nonce@, p.0@, aad@)
            &&& p.1@.len() == TAG_LEN
        },
{
    let cipher = aes_gcm::Aes256Gcm::new(aes_gcm::Key::<aes_gcm::Aes256Gcm>::from_slice(
        key.as_slice(),
    ));
    let nonce = aes_gcm::Nonce::from_slice(nonce.as_slice());
    let mut buf = pt.clone();
    match cipher.encrypt_in_place_detached(nonce, aad.as_slice(), buf.as_mut_slice()) {
        Ok(tag) => Some((buf, tag.to_vec())),
        Err(_) => None,
    }
}

/// Relies on `aes_gcm::Aes256Gcm::decrypt_in_place_detached`: it recomputes
/// the tag over the ciphertext and associated data under the key and nonce,
/// succeeds exactly when it equals the given tag, and only then strips the
/// keystream, so the returned plaintext is determined by key, nonce and
/// ciphertext.
#[verifier::external_body]
pub(crate) fn aead_decrypt(
    key: &Vec<u8>,
    nonce: &Vec<u8>,
    ct: &Vec<u8>,
    aad: &Vec<u8>,
    tag: &Vec<u8>,
) -> (r: Option<Vec<u8>>)
    requires
        key@.len() == KEY_LEN,
        nonce@.len() == NONCE_LEN,
        tag@.len() == TAG_LEN,
        ct@.len() <= u32::MAX,
        aad@.len() <= u32::MAX,
    ensures
        r is Some <==> tag@ == gcm_tag(key@, nonce@, ct@, aad@),
        r matches Some(pt) ==> pt@ == gcm_pt(key@, nonce@, ct@) && pt@.len() == ct@.len(),
{
    let cipher = aes_gcm::Aes256Gcm::new(aes_gcm::Key::<aes_gcm::Aes256Gcm>::from_slice(
        key.as_slice(),
    ));
    let nonce = aes_gcm::Nonce::from_slice(nonce.as_slice());
    let tag = aes_gcm::Tag::from_slice(tag.as_slice());
    let mut buf = ct.clone();
    match cipher.decrypt_in_place_detached(nonce, aad.as_slice(), buf.as_mut_slice(), tag) {
        Ok(()) => Some(buf),
        Err(_) => None,
    }
}

} // verus!
