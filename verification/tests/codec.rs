use sealeddata::codec::decode;
use sealeddata::codec::encode;
use sealeddata::engine::seal;
use sealeddata::engine::verify_sealeddata;
use sealeddata::record::Record;
use sealeddata::SealError;
use sealeddata::ALG_AES256GCM;
use sealeddata::HEADER_LEN;
use sealeddata::RECORD_BYTES;
use sealeddata::TAG_LEN;

fn identity() -> Vec<u8> {
    b"identity-context-one".to_vec()
}

fn sample_record() -> Record {
    Record { key: 0x1234, rand: (100u8..116u8).collect() }
}

const EXACT_SIZE: usize = HEADER_LEN + RECORD_BYTES + TAG_LEN;

#[test]
fn encode_one_byte_short_fails_and_leaves_buffer_unmodified() {
    let env = seal(&identity(), &sample_record(), &Vec::new()).expect("seal");
    let mut buf = vec![0xabu8; EXACT_SIZE - 1];
    match encode(&env, &mut buf) {
        Err(SealError::BufferTooSmall) => {}
        other => panic!("expected BufferTooSmall, got ok: {:?}", other.is_ok()),
    }
    assert_eq!(buf, vec![0xabu8; EXACT_SIZE - 1]);
}

#[test]
fn encode_exact_size_succeeds() {
    let env = seal(&identity(), &sample_record(), &Vec::new()).expect("seal");
    let mut buf = vec![0u8; EXACT_SIZE];
    assert_eq!(encode(&env, &mut buf).expect("encode"), EXACT_SIZE);
}

#[test]
fn encode_leaves_bytes_past_the_envelope_untouched() {
    let env = seal(&identity(), &sample_record(), &Vec::new()).expect("seal");
    let mut buf = vec![0xcdu8; EXACT_SIZE + 20];
    assert_eq!(encode(&env, &mut buf).expect("encode"), EXACT_SIZE);
    assert_eq!(&buf[EXACT_SIZE..], vec![0xcdu8; 20].as_slice());
    // A larger caller buffer still verifies: decode reads only the envelope.
    assert!(verify_sealeddata(&identity(), &buf).is_ok());
}

#[test]
fn header_layout_is_fixed_little_endian() {
    let aad: Vec<u8> = vec![7u8, 8u8, 9u8];
    let env = seal(&identity(), &sample_record(), &aad).expect("seal");
    let mut buf = vec![0u8; EXACT_SIZE + aad.len()];
    encode(&env, &mut buf).expect("encode");
    assert_eq!(&buf[0..4], &[20, 0, 0, 0], "plaintext length");
    assert_eq!(&buf[4..8], &[3, 0, 0, 0], "associated-data length");
    assert_eq!(&buf[8..12], &[ALG_AES256GCM as u8, 0, 0, 0], "algorithm identifier");
    assert_eq!(&buf[12..28], env.salt.as_slice(), "salt");
    assert_eq!(&buf[28..40], env.nonce.as_slice(), "nonce");
    assert_eq!(&buf[40..44], &[16, 0, 0, 0], "tag length");
    assert_eq!(&buf[44..47], aad.as_slice(), "associated data");
    assert_eq!(&buf[47..67], env.ciphertext.as_slice(), "ciphertext");
    assert_eq!(&buf[67..83], env.tag.as_slice(), "tag");
}

#[test]
fn decode_round_trips_an_encoded_envelope() {
    let env = seal(&identity(), &sample_record(), &Vec::new()).expect("seal");
    let mut buf = vec![0u8; EXACT_SIZE];
    let n = encode(&env, &mut buf).expect("encode");
    let env2 = decode(&buf, n).expect("decode");
    assert_eq!(env2.alg, env.alg);
    assert_eq!(env2.salt, env.salt);
    assert_eq!(env2.nonce, env.nonce);
    assert_eq!(env2.aad, env.aad);
    assert_eq!(env2.ciphertext, env.ciphertext);
    assert_eq!(env2.tag, env.tag);
}

#[test]
fn decode_rejects_buffers_shorter_than_the_header() {
    let buf = vec![0u8; HEADER_LEN - 1];
    assert!(decode(&buf, HEADER_LEN - 1).is_none());
    let empty: Vec<u8> = Vec::new();
    assert!(decode(&empty, 0).is_none());
}

#[test]
fn decode_rejects_declared_lengths_past_the_buffer() {
    let env = seal(&identity(), &sample_record(), &Vec::new()).expect("seal");
    let mut buf = vec![0u8; EXACT_SIZE];
    encode(&env, &mut buf).expect("encode");
    // Truncated by one byte: the declared regions no longer fit.
    assert!(decode(&buf, EXACT_SIZE - 1).is_none());
    // A plaintext-length field past the buffer end.
    let mut oversized = buf.clone();
    oversized[0..4].copy_from_slice(&1000u32.to_le_bytes());
    assert!(decode(&oversized, EXACT_SIZE).is_none());
    // An associated-data length field past the buffer end.
    let mut oversized_aad = buf;
    oversized_aad[4..8].copy_from_slice(&u32::MAX.to_le_bytes());
    assert!(decode(&oversized_aad, EXACT_SIZE).is_none());
}

#[test]
fn decode_rejects_unknown_algorithm_or_tag_length() {
    let env = seal(&identity(), &sample_record(), &Vec::new()).expect("seal");
    let mut buf = vec![0u8; EXACT_SIZE];
    encode(&env, &mut buf).expect("encode");
    let mut wrong_alg = buf.clone();
    wrong_alg[8] = 77;
    assert!(decode(&wrong_alg, EXACT_SIZE).is_none());
    let mut wrong_tag_len = buf;
    wrong_tag_len[40] = 12;
    assert!(decode(&wrong_tag_len, EXACT_SIZE).is_none());
}

#[test]
fn verify_reports_corrupt_on_structural_damage() {
    let identity = identity();
    let env = seal(&identity, &sample_record(), &Vec::new()).expect("seal");
    let mut buf = vec![0u8; EXACT_SIZE];
    encode(&env, &mut buf).expect("encode");
    let short: Vec<u8> = buf[..HEADER_LEN - 1].to_vec();
    assert!(matches!(verify_sealeddata(&identity, &short), Err(SealError::Corrupt)));
    let mut bad_alg = buf;
    bad_alg[8] = 0;
    assert!(matches!(verify_sealeddata(&identity, &bad_alg), Err(SealError::Corrupt)));
}

#[test]
fn record_serialization_round_trips() {
    let rec = sample_record();
    let bytes = rec.to_bytes();
    assert_eq!(bytes.len(), RECORD_BYTES);
    assert_eq!(&bytes[0..4], &[0x34, 0x12, 0, 0]);
    assert_eq!(&bytes[4..], rec.rand.as_slice());
    let back = Record::from_bytes(&bytes);
    assert_eq!(back.key, rec.key);
    assert_eq!(back.rand, rec.rand);
}
