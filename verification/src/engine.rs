//! The sealing and unsealing engines, the two entry-point flows, and the
//! laws that relate them.
//!
//! A sealing key is never stored or transmitted: the envelope carries only
//! the key-derivation descriptor (salt and nonce), and the key is re-derived
//! from the ambient identity context each time. The identity context is
//! supplied by the surrounding runtime, not chosen by a remote caller.

use vstd::prelude::*;

use crate::codec::decode;
use crate::codec::encode;
use crate::crypto::aead_decrypt;
use crate::crypto::aead_encrypt;
use crate::crypto::gcm_ct;
use crate::crypto::gcm_pt;
use crate::crypto::gcm_tag;
use crate::crypto::hmac_sha256;
use crate::envelope::env_wf;
use crate::envelope::is_encoding_prefix;
use crate::envelope::required_size;
use crate::envelope::Envelope;
use crate::envelope::EnvelopeView;
use crate::record::record_bytes;
use crate::record::record_wf;
use crate::record::Record;
use crate::rng::fill_random;
use crate::SealError;
use crate::ALG_AES256GCM;
use crate::DEMO_KEY;
use crate::NONCE_LEN;
use crate::RECORD_BYTES;
use crate::SALT_LEN;

verus! {

/// The sealing key for an identity context and a per-call salt: the
/// HMAC-SHA-256 digest of the salt under the identity context. Two
/// invocations derive the same key exactly when both inputs coincide.
pub open spec fn derived_key_of(identity: Seq<u8>, salt: Seq<u8>) -> Seq<u8> {
    crate::crypto::hmac_sha256_of(identity, salt)
}

/// What sealing plaintext `pt` with associated data `aad` under identity
/// context `identity` produces: a well-formed envelope whose ciphertext and
/// tag are the AEAD transform of `pt` and `aad` under the key derived from
/// `identity` and the envelope's own salt.
pub open spec fn sealed_for(identity: Seq<u8>, v: EnvelopeView, pt: Seq<u8>, aad: Seq<u8>) -> bool {
    let key = derived_key_of(identity, v.salt);
    &&& env_wf(v)
    &&& v.aad == aad
    &&& v.ciphertext == gcm_ct(key, v.nonce, pt)
    &&& v.ciphertext.len() == pt.len()
    &&& gcm_pt(key, v.nonce, v.ciphertext) == pt
    &&& v.tag == gcm_tag(key, v.nonce, v.ciphertext, aad)
}

/// What unsealing an envelope under an identity context yields: the
/// structural check first (the ciphertext must be record-sized), then tag
/// verification under the re-derived key before any plaintext is exposed,
/// and only then the decrypted plaintext.
pub open spec fn unseal_outcome(identity: Seq<u8>, v: EnvelopeView) -> Result<Seq<u8>, SealError> {
    let key = derived_key_of(identity, v.salt);
    if v.ciphertext.len() != RECORD_BYTES {
        Err(SealError::Corrupt)
    } else if v.tag != gcm_tag(key, v.nonce, v.ciphertext, v.aad) {
        Err(SealError::MacMismatch)
    } else {
        Ok(gcm_pt(key, v.nonce, v.ciphertext))
    }
}

/// How an unsealing result reports an outcome: the reconstructed record
/// serializes to the yielded plaintext, and an error is passed on as it is.
pub open spec fn reports_outcome(r: Result<Record, SealError>, o: Result<Seq<u8>, SealError>) -> bool {
    match r {
        Ok(rec) => record_wf(rec) && o == Ok::<Seq<u8>, SealError>(record_bytes(rec)),
        Err(e) => o == Err::<Seq<u8>, SealError>(e),
    }
}

/// Seals a record: derives a policy-bound key from the identity context and
/// a fresh salt, runs the AEAD transform with a fresh nonce, and returns the
/// envelope. Fails with `KeyDerivationFailure` when the entropy source
/// cannot supply the per-call salt or nonce, and with `EncryptionFailure`
/// when the AEAD transform errors; each call is independent and retains no
/// state.
pub fn seal(identity: &Vec<u8>, record: &Record, aad: &Vec<u8>) -> (r: Result<Envelope, SealError>)
    requires
        record_wf(*record),
        aad@.len() <= u32::MAX,
    ensures
        r matches Ok(env) ==> sealed_for(identity@, env@, record_bytes(*record), aad@),
        r matches Err(e) ==> e == SealError::KeyDerivationFailure || e
            == SealError::EncryptionFailure,
{
    let salt = match fill_random(SALT_LEN) {
        Some(s) => s,
        None => {
            return Err(SealError::KeyDerivationFailure);
        },
    };
    let nonce = match fill_random(NONCE_LEN) {
        Some(n) => n,
        None => {
            return Err(SealError::KeyDerivationFailure);
        },
    };
    let key = hmac_sha256(identity, &salt);
    let pt = record.to_bytes();
    match aead_encrypt(&key, &nonce, &pt, aad) {
        Some((ciphertext, tag)) => {
            let env = Envelope {
                alg: ALG_AES256GCM,
                salt,
                nonce,
                aad: clone_bytes(aad),
                ciphertext,
                tag,
            };
            Ok(env)
        },
        None => Err(SealError::EncryptionFailure),
    }
}

/// Unseals an envelope: re-derives the key from the descriptor in the
/// header and the *current* identity context, verifies the authentication
/// tag over ciphertext and associated data before exposing any plaintext,
/// and reconstructs the record. A ciphertext that is not record-sized is
/// `Corrupt`; a failed verification is `MacMismatch`, whether the envelope
/// was tampered with or the identity context differs from sealing time —
/// the two are deliberately indistinguishable.
pub fn unseal(identity: &Vec<u8>, env: &Envelope) -> (r: Result<Record, SealError>)
    requires
        env_wf(env@),
    ensures
        reports_outcome(r, unseal_outcome(identity@, env@)),
{
    if env.ciphertext.len() != RECORD_BYTES {
        return Err(SealError::Corrupt);
    }
    let key = hmac_sha256(identity, &env.salt);
    match aead_decrypt(&key, &env.nonce, &env.ciphertext, &env.aad, &env.tag) {
        Some(pt) => Ok(Record::from_bytes(&pt)),
        None => Err(SealError::MacMismatch),
    }
}

/// Runs the full create flow: generates a fresh record, seals it with empty
/// associated data, and encodes the envelope into the caller-owned buffer.
/// On any failure the buffer is untouched; on success the envelope stands at
/// the front of the buffer and the bytes past it are untouched, and the
/// generated record is returned for the caller's diagnostic relay.
pub fn create_sealeddata(identity: &Vec<u8>, buf: &mut Vec<u8>) -> (r: Result<Record, SealError>)
    ensures
        final(buf)@.len() == old(buf)@.len(),
        r matches Ok(rec) ==> {
            &&& record_wf(rec)
            &&& rec.key == DEMO_KEY
            &&& exists|v: EnvelopeView|
                {
                    &&& #[trigger] sealed_for(identity@, v, record_bytes(rec), Seq::<u8>::empty())
                    &&& is_encoding_prefix(v, final(buf)@)
                    &&& final(buf)@.skip(required_size(v)) == old(buf)@.skip(required_size(v))
                }
        },
        r matches Err(e) ==> final(buf)@ == old(buf)@ && (e == SealError::RngFailure || e
            == SealError::KeyDerivationFailure || e == SealError::EncryptionFailure || e
            == SealError::BufferTooSmall),
{
    let rec = match Record::generate() {
        Ok(rec) => rec,
        Err(e) => {
            return Err(e);
        },
    };
    let aad: Vec<u8> = Vec::new();
    let env = match seal(identity, &rec, &aad) {
        Ok(env) => env,
        Err(e) => {
            return Err(e);
        },
    };
    match encode(&env, buf) {
        Ok(n) => {
            proof {
                assert(final(buf)@.take(n as int).is_prefix_of(final(buf)@)) by {
                    assert(final(buf)@.take(n as int) =~= final(buf)@.subrange(0, n as int));
                }
                assert(sealed_for(identity@, env@, record_bytes(rec), Seq::<u8>::empty()));
                assert(is_encoding_prefix(env@, final(buf)@));
                assert(final(buf)@.skip(required_size(env@)) == old(buf)@.skip(
                    required_size(env@),
                ));
            }
            Ok(rec)
        },
        Err(e) => Err(e),
    }
}

/// Runs the full verify flow: decodes an envelope from the caller-owned
/// buffer and unseals it under the current identity context. A buffer that
/// holds no well-formed envelope is `Corrupt`; otherwise the result reports
/// the unsealing outcome of the envelope encoded at the front of the
/// buffer.
pub fn verify_sealeddata(identity: &Vec<u8>, buf: &Vec<u8>) -> (r: Result<Record, SealError>)
    ensures
        forall|v: EnvelopeView|
            env_wf(v) && #[trigger] is_encoding_prefix(v, buf@) ==> reports_outcome(
                r,
                unseal_outcome(identity@, v),
            ),
        r matches Ok(rec) ==> exists|v: EnvelopeView|
            env_wf(v) && #[trigger] is_encoding_prefix(v, buf@) && unseal_outcome(identity@, v)
                == Ok::<Seq<u8>, SealError>(record_bytes(rec)),
        (forall|v: EnvelopeView| !(env_wf(v) && #[trigger] is_encoding_prefix(v, buf@))) ==> r
            == Err::<Record, SealError>(SealError::Corrupt),
{
    proof {
        assert(buf@.take(buf.len() as int) =~= buf@);
    }
    let env = match decode(buf, buf.len()) {
        Some(env) => env,
        None => {
            return Err(SealError::Corrupt);
        },
    };
    unseal(identity, &env)
}

/// Copies a byte vector.
fn clone_bytes(b: &Vec<u8>) -> (r: Vec<u8>)
    ensures
        r@ == b@,
{
    let mut r: Vec<u8> = Vec::new();
    let mut i: usize = 0;
    while i < b.len()
        invariant
            i <= b@.len(),
            r@ == b@.take(i as int),
        decreases b@.len() - i,
    {
        r.push(b[i]);
        i += 1;
        proof {
            assert(b@.take(i as int) =~= b@.take(i - 1) + seq![b@[i - 1]]);
        }
    }
    proof {
        assert(b@.take(b@.len() as int) =~= b@);
    }
    r
}

/// Round trip: an envelope sealed from a record under an identity context
/// unseals, under the same context, to exactly that record's bytes.
pub proof fn lemma_seal_unseal_round_trip(
    identity: Seq<u8>,
    v: EnvelopeView,
    rec: Record,
    aad: Seq<u8>,
)
    requires
        record_wf(rec),
        sealed_for(identity, v, record_bytes(rec), aad),
    ensures
        unseal_outcome(identity, v) == Ok::<Seq<u8>, SealError>(record_bytes(rec)),
{
    vstd::bytes::lemma_auto_spec_u32_to_from_le_bytes();
}

/// Authentication before release: whenever the envelope's tag is not the
/// tag of its ciphertext and associated data under the key derived from the
/// current identity context, unsealing yields `MacMismatch` and never a
/// plaintext. A tampered ciphertext or tag region, and equally an identity
/// context other than the sealing one, is rejected this way as soon as the
/// re-derived key no longer reproduces the stored tag; the two causes are
/// indistinguishable by design.
pub proof fn lemma_mismatched_tag_is_rejected(identity: Seq<u8>, v: EnvelopeView)
    requires
        v.tag != gcm_tag(derived_key_of(identity, v.salt), v.nonce, v.ciphertext, v.aad),
    ensures
        unseal_outcome(identity, v) is Err,
        v.ciphertext.len() == RECORD_BYTES ==> unseal_outcome(identity, v) == Err::<
            Seq<u8>,
            SealError,
        >(SealError::MacMismatch),
{
}

/// Tamper detection, tag region: changing the tag of a sealed envelope in
/// any way — a single flipped bit included — is rejected as `MacMismatch`
/// under the sealing identity context, and never yields a plaintext.
pub proof fn lemma_tag_tamper_is_rejected(
    identity: Seq<u8>,
    v: EnvelopeView,
    v2: EnvelopeView,
    rec: Record,
    aad: Seq<u8>,
)
    requires
        record_wf(rec),
        sealed_for(identity, v, record_bytes(rec), aad),
        v2.salt == v.salt,
        v2.nonce == v.nonce,
        v2.aad == v.aad,
        v2.ciphertext == v.ciphertext,
        v2.tag != v.tag,
    ensures
        unseal_outcome(identity, v2) == Err::<Seq<u8>, SealError>(SealError::MacMismatch),
{
    vstd::bytes::lemma_auto_spec_u32_to_from_le_bytes();
}

/// Identity binding: an envelope sealed under one identity context, when
/// unsealed under another whose derived key does not reproduce the stored
/// tag, fails with `MacMismatch` — the same failure as tampering.
pub proof fn lemma_identity_binding(
    c1: Seq<u8>,
    c2: Seq<u8>,
    v: EnvelopeView,
    rec: Record,
    aad: Seq<u8>,
)
    requires
        record_wf(rec),
        sealed_for(c1, v, record_bytes(rec), aad),
        v.tag != gcm_tag(derived_key_of(c2, v.salt), v.nonce, v.ciphertext, v.aad),
    ensures
        unseal_outcome(c2, v) == Err::<Seq<u8>, SealError>(SealError::MacMismatch),
{
    vstd::bytes::lemma_auto_spec_u32_to_from_le_bytes();
}

} // verus!
