use sealeddata::codec::encode;
use sealeddata::engine::create_sealeddata;
use sealeddata::engine::seal;
use sealeddata::engine::unseal;
use sealeddata::engine::verify_sealeddata;
use sealeddata::envelope::Envelope;
use sealeddata::record::Record;
use sealeddata::SealError;
use sealeddata::HEADER_LEN;
use sealeddata::RECORD_BYTES;
use sealeddata::TAG_LEN;

fn identity_one() -> Vec<u8> {
    b"identity-context-one".to_vec()
}

fn identity_two() -> Vec<u8> {
    b"identity-context-two".to_vec()
}

fn fixed_record() -> Record {
    Record { key: 0x1234, rand: (0u8..16u8).collect() }
}

/// Exact size of an envelope sealed from a record with empty associated data.
const EXACT_SIZE: usize = HEADER_LEN + RECORD_BYTES + TAG_LEN;

fn sealed_exact_buffer(identity: &Vec<u8>, rec: &Record) -> Vec<u8> {
    let env = seal(identity, rec, &Vec::new()).expect("seal");
    let mut buf = vec![0u8; EXACT_SIZE];
    let n = encode(&env, &mut buf).expect("encode");
    assert_eq!(n, EXACT_SIZE);
    buf
}

#[test]
fn roundtrip_create_verify_same_identity() {
    let identity = identity_one();
    let mut buf = vec![0u8; EXACT_SIZE];
    let rec = create_sealeddata(&identity, &mut buf).expect("create");
    assert_eq!(rec.key, 0x1234);
    assert_eq!(rec.rand.len(), 16);
    let rec2 = verify_sealeddata(&identity, &buf).expect("verify");
    assert_eq!(rec2.key, rec.key);
    assert_eq!(rec2.rand, rec.rand);
}

#[test]
fn roundtrip_fixed_record_exact_buffer() {
    let identity = identity_one();
    let rec = fixed_record();
    let buf = sealed_exact_buffer(&identity, &rec);
    let rec2 = verify_sealeddata(&identity, &buf).expect("verify");
    assert_eq!(rec2.key, 0x1234);
    assert_eq!(rec2.rand, (0u8..16u8).collect::<Vec<u8>>());
}

#[test]
fn roundtrip_with_associated_data() {
    let identity = identity_one();
    let rec = fixed_record();
    let aad: Vec<u8> = b"label".to_vec();
    let env = seal(&identity, &rec, &aad).expect("seal");
    assert_eq!(env.aad, aad);
    let rec2 = unseal(&identity, &env).expect("unseal");
    assert_eq!(rec2.key, rec.key);
    assert_eq!(rec2.rand, rec.rand);
}

#[test]
fn tamper_any_single_bit_in_ciphertext_or_tag_fails() {
    let identity = identity_one();
    let rec = fixed_record();
    let buf = sealed_exact_buffer(&identity, &rec);
    for byte in HEADER_LEN..EXACT_SIZE {
        for bit in 0..8 {
            let mut tampered = buf.clone();
            tampered[byte] ^= 1 << bit;
            match verify_sealeddata(&identity, &tampered) {
                Err(SealError::MacMismatch) => {}
                other => panic!("bit {} of byte {} was accepted: {:?}", bit, byte, other.is_ok()),
            }
        }
    }
}

#[test]
fn identity_binding_other_context_is_mac_mismatch() {
    let identity = identity_one();
    let rec = fixed_record();
    let buf = sealed_exact_buffer(&identity, &rec);
    match verify_sealeddata(&identity_two(), &buf) {
        Err(SealError::MacMismatch) => {}
        other => panic!("unsealing under another identity was accepted: {:?}", other.is_ok()),
    }
}

#[test]
fn different_identities_derive_different_tags() {
    // Through seal alone: were the key not bound to the identity context, the
    // same record and descriptor inputs would still authenticate elsewhere.
    let rec = fixed_record();
    let env = seal(&identity_one(), &rec, &Vec::new()).expect("seal");
    let reused = Envelope {
        alg: env.alg,
        salt: env.salt.clone(),
        nonce: env.nonce.clone(),
        aad: env.aad.clone(),
        ciphertext: env.ciphertext.clone(),
        tag: env.tag.clone(),
    };
    assert!(matches!(unseal(&identity_two(), &reused), Err(SealError::MacMismatch)));
    assert!(unseal(&identity_one(), &env).is_ok());
}

#[test]
fn ciphertext_differs_from_plaintext() {
    // Would fail if the encryption handed the record bytes back unchanged.
    let identity = identity_one();
    let rec = fixed_record();
    let buf = sealed_exact_buffer(&identity, &rec);
    let mut plain = 0x1234u32.to_le_bytes().to_vec();
    plain.extend(0u8..16u8);
    assert_eq!(plain.len(), RECORD_BYTES);
    assert_ne!(&buf[HEADER_LEN..HEADER_LEN + RECORD_BYTES], plain.as_slice());
}

#[test]
fn generated_records_draw_fresh_entropy() {
    let a = Record::generate().expect("generate");
    let b = Record::generate().expect("generate");
    assert_eq!(a.rand.len(), 16);
    assert_eq!(b.rand.len(), 16);
    assert_eq!(a.key, 0x1234);
    assert_ne!(a.rand, b.rand);
}

#[test]
fn unseal_rejects_wrong_sized_ciphertext_as_corrupt() {
    let identity = identity_one();
    let env = Envelope {
        alg: 1,
        salt: vec![0u8; 16],
        nonce: vec![0u8; 12],
        aad: Vec::new(),
        ciphertext: vec![0u8; 5],
        tag: vec![0u8; 16],
    };
    assert!(matches!(unseal(&identity, &env), Err(SealError::Corrupt)));
}

#[test]
fn seal_draws_a_fresh_descriptor_per_call() {
    let identity = identity_one();
    let rec = fixed_record();
    let env1 = seal(&identity, &rec, &Vec::new()).expect("seal");
    let env2 = seal(&identity, &rec, &Vec::new()).expect("seal");
    assert_ne!(env1.salt, env2.salt);
    assert_ne!(env1.nonce, env2.nonce);
    assert_ne!(env1.ciphertext, env2.ciphertext);
}

#[test]
fn verify_round_trips_an_envelope_with_associated_data() {
    let identity = identity_one();
    let rec = fixed_record();
    let aad: Vec<u8> = b"label".to_vec();
    let env = seal(&identity, &rec, &aad).expect("seal");
    let mut buf = vec![0u8; EXACT_SIZE + aad.len()];
    encode(&env, &mut buf).expect("encode");
    let rec2 = verify_sealeddata(&identity, &buf).expect("verify");
    assert_eq!(rec2.key, rec.key);
    assert_eq!(rec2.rand, rec.rand);
    // Tampering with the associated data region is detected too.
    let mut tampered = buf.clone();
    tampered[sealeddata::HEADER_LEN] ^= 1;
    assert!(matches!(verify_sealeddata(&identity, &tampered), Err(SealError::MacMismatch)));
}
