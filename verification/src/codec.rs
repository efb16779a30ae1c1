//! Serialization of envelopes into caller-owned buffers, and back.
//!
//! `encode` is atomic: it either writes the whole envelope or leaves the
//! buffer untouched. `decode` performs only structural checks — it never
//! reads past the declared buffer size and never returns a partially
//! populated envelope; cryptographic verification is a separate, later step.

use vstd::bytes::lemma_auto_spec_u32_to_from_le_bytes;
use vstd::bytes::spec_u32_from_le_bytes;
use vstd::bytes::spec_u32_to_le_bytes;
use vstd::bytes::u32_from_le_bytes;
use vstd::bytes::u32_to_le_bytes;
use vstd::prelude::*;
use vstd::slice::slice_subrange;

use crate::envelope::encoding_of;
use crate::envelope::env_wf;
use crate::envelope::is_encoding_prefix;
use crate::envelope::lemma_encoding_len;
use crate::envelope::required_size;
use crate::envelope::Envelope;
use crate::envelope::EnvelopeView;
use crate::SealError;
use crate::ALG_AES256GCM;
use crate::HEADER_LEN;
use crate::NONCE_LEN;
use crate::SALT_LEN;
use crate::TAG_LEN;

verus! {

/// What standing at the front of `bytes` pins down: every field of a
/// well-formed envelope is the matching region of `bytes`, and the header
/// length fields are the little-endian forms of the region lengths.
proof fn lemma_prefix_fields(v: EnvelopeView, bytes: Seq<u8>)
    requires
        env_wf(v),
        is_encoding_prefix(v, bytes),
    ensures
        required_size(v) <= bytes.len(),
        bytes.subrange(0, 4) == spec_u32_to_le_bytes(v.ciphertext.len() as u32),
        bytes.subrange(4, 8) == spec_u32_to_le_bytes(v.aad.len() as u32),
        bytes.subrange(8, 12) == spec_u32_to_le_bytes(v.alg),
        bytes.subrange(12, 28) == v.salt,
        bytes.subrange(28, 40) == v.nonce,
        bytes.subrange(40, 44) == spec_u32_to_le_bytes(v.tag.len() as u32),
        v.aad == bytes.subrange(HEADER_LEN as int, HEADER_LEN + v.aad.len()),
        v.ciphertext == bytes.subrange(
            HEADER_LEN + v.aad.len(),
            HEADER_LEN + v.aad.len() + v.ciphertext.len(),
        ),
        v.tag == bytes.subrange(HEADER_LEN + v.aad.len() + v.ciphertext.len(), required_size(v)),
{
    lemma_auto_spec_u32_to_from_le_bytes();
    lemma_encoding_len(v);
    let e = encoding_of(v);
    assert(e == bytes.subrange(0, e.len() as int));
    let a0: int = HEADER_LEN as int;
    let a1: int = a0 + v.aad.len();
    let a2: int = a1 + v.ciphertext.len();
    let a3: int = a2 + v.tag.len();
    assert(e.subrange(0, 4) =~= spec_u32_to_le_bytes(v.ciphertext.len() as u32));
    assert(e.subrange(4, 8) =~= spec_u32_to_le_bytes(v.aad.len() as u32));
    assert(e.subrange(8, 12) =~= spec_u32_to_le_bytes(v.alg));
    assert(e.subrange(12, 28) =~= v.salt);
    assert(e.subrange(28, 40) =~= v.nonce);
    assert(e.subrange(40, 44) =~= spec_u32_to_le_bytes(v.tag.len() as u32));
    assert(e.subrange(a0, a1) =~= v.aad);
    assert(e.subrange(a1, a2) =~= v.ciphertext);
    assert(e.subrange(a2, a3) =~= v.tag);
    assert forall|x: int, y: int| 0 <= x <= y <= e.len() implies e.subrange(x, y) == bytes.subrange(
        x,
        y,
    ) by {
        assert(e.subrange(x, y) =~= bytes.subrange(x, y));
    }
}

/// Two well-formed envelopes encoded at the front of the same bytes are the
/// same envelope: the wire layout is unambiguous.
pub proof fn lemma_prefix_unambiguous(v1: EnvelopeView, v2: EnvelopeView, bytes: Seq<u8>)
    requires
        env_wf(v1),
        env_wf(v2),
        is_encoding_prefix(v1, bytes),
        is_encoding_prefix(v2, bytes),
    ensures
        v1 == v2,
{
    lemma_auto_spec_u32_to_from_le_bytes();
    lemma_prefix_fields(v1, bytes);
    lemma_prefix_fields(v2, bytes);
    assert(spec_u32_from_le_bytes(bytes.subrange(0, 4)) == v1.ciphertext.len() as u32);
    assert(spec_u32_from_le_bytes(bytes.subrange(0, 4)) == v2.ciphertext.len() as u32);
    assert(v1.ciphertext.len() == v2.ciphertext.len());
    assert(spec_u32_from_le_bytes(bytes.subrange(4, 8)) == v1.aad.len() as u32);
    assert(v1.aad.len() == v2.aad.len());
    assert(v1.alg == v2.alg);
    assert(v1 =~= v2);
}

/// Copies `src` into `buf` starting at `at`, leaving the rest of `buf` as it
/// was.
fn write_at(buf: &mut Vec<u8>, at: usize, src: &Vec<u8>)
    requires
        at + src@.len() <= old(buf)@.len(),
    ensures
        final(buf)@.len() == old(buf)@.len(),
        final(buf)@.subrange(at as int, at + src@.len()) == src@,
        final(buf)@.take(at as int) == old(buf)@.take(at as int),
        final(buf)@.skip(at + src@.len()) == old(buf)@.skip(at + src@.len()),
{
    proof {
        assert(buf.len() == buf@.len());
    }
    let mut i: usize = 0;
    while i < src.len()
        invariant
            at + src@.len() <= buf@.len() <= usize::MAX,
            i <= src@.len(),
            buf@.len() == old(buf)@.len(),
            forall|j: int| 0 <= j < buf@.len() && !(at <= j < at + i) ==> buf@[j] == old(buf)@[j],
            forall|j: int| at <= j < at + i ==> buf@[j] == src@[j - at],
        decreases src@.len() - i,
    {
        buf.set(at + i, src[i]);
        i += 1;
    }
    proof {
        assert(buf@.subrange(at as int, at + src@.len()) =~= src@);
        assert(buf@.take(at as int) =~= old(buf)@.take(at as int));
        assert(buf@.skip(at + src@.len()) =~= old(buf)@.skip(at + src@.len()));
    }
}

/// Appends all of `src` to `out`.
fn push_all(out: &mut Vec<u8>, src: &Vec<u8>)
    ensures
        final(out)@ == old(out)@ + src@,
{
    let mut i: usize = 0;
    while i < src.len()
        invariant
            i <= src@.len(),
            out@ == old(out)@ + src@.take(i as int),
        decreases src@.len() - i,
    {
        out.push(src[i]);
        i += 1;
        proof {
            assert(src@.take(i as int) =~= src@.take(i - 1) + seq![src@[i - 1]]);
            assert(out@ =~= old(out)@ + src@.take(i as int));
        }
    }
    proof {
        assert(src@.take(src@.len() as int) =~= src@);
    }
}

/// Returns a copy of `buf[at .. at + n]`.
fn copy_range(buf: &Vec<u8>, at: usize, n: usize) -> (r: Vec<u8>)
    requires
        at + n <= buf@.len(),
    ensures
        r@ == buf@.subrange(at as int, at + n),
{
    proof {
        assert(buf.len() == buf@.len());
    }
    let mut r: Vec<u8> = Vec::new();
    let mut i: usize = 0;
    while i < n
        invariant
            at + n <= buf@.len() <= usize::MAX,
            i <= n,
            r@ == buf@.subrange(at as int, at + i),
        decreases n - i,
    {
        r.push(buf[at + i]);
        i += 1;
        proof {
            assert(buf@.subrange(at as int, at + i) =~= buf@.subrange(at as int, at + i - 1)
                + seq![buf@[at + i - 1]]);
        }
    }
    r
}

/// Reads the little-endian u32 at `buf[at .. at + 4]`.
fn read_u32_at(buf: &Vec<u8>, at: usize) -> (x: u32)
    requires
        at + 4 <= buf@.len(),
    ensures
        x == spec_u32_from_le_bytes(buf@.subrange(at as int, at + 4)),
{
    proof {
        assert(buf.len() == buf@.len());
    }
    u32_from_le_bytes(slice_subrange(buf.as_slice(), at, at + 4))
}

/// Writes the envelope into the caller-owned buffer in the fixed field
/// order. The write is atomic: it succeeds exactly when the buffer holds the
/// exact required size, and on failure the buffer is untouched. Bytes past
/// the encoding are never modified.
pub fn encode(env: &Envelope, buf: &mut Vec<u8>) -> (r: Result<usize, SealError>)
    requires
        env_wf(env@),
    ensures
        final(buf)@.len() == old(buf)@.len(),
        r is Ok <==> required_size(env@) <= old(buf)@.len(),
        r matches Ok(n) ==> n == required_size(env@) && final(buf)@.take(n as int)
            == encoding_of(env@) && final(buf)@.skip(n as int) == old(buf)@.skip(n as int),
        r matches Err(e) ==> e == SealError::BufferTooSmall && final(buf)@ == old(buf)@,
{
    proof {
        lemma_encoding_len(env@);
    }
    let aad_n: usize = env.aad.len();
    let ct_n: usize = env.ciphertext.len();
    let tag_n: usize = env.tag.len();
    let req64: u64 = HEADER_LEN as u64 + aad_n as u64 + ct_n as u64 + tag_n as u64;
    if req64 > buf.len() as u64 {
        return Err(SealError::BufferTooSmall);
    }
    let req: usize = req64 as usize;
    let mut out: Vec<u8> = Vec::new();
    let t0 = u32_to_le_bytes(ct_n as u32);
    push_all(&mut out, &t0);
    let t1 = u32_to_le_bytes(aad_n as u32);
    push_all(&mut out, &t1);
    let t2 = u32_to_le_bytes(env.alg);
    push_all(&mut out, &t2);
    push_all(&mut out, &env.salt);
    push_all(&mut out, &env.nonce);
    let t3 = u32_to_le_bytes(tag_n as u32);
    push_all(&mut out, &t3);
    push_all(&mut out, &env.aad);
    push_all(&mut out, &env.ciphertext);
    push_all(&mut out, &env.tag);
    proof {
        assert(out@ =~= encoding_of(env@));
    }
    write_at(buf, 0, &out);
    proof {
        assert(buf@.take(req as int) =~= buf@.subrange(0, out@.len() as int));
        assert(buf@.skip(req as int) =~= old(buf)@.skip(req as int));
    }
    Ok(req)
}

/// Reads an envelope back from the first `size` bytes of the buffer.
/// Succeeds exactly when a well-formed envelope is encoded there: buffers
/// shorter than the header, unknown algorithm or tag-length fields, and
/// header lengths that would read past `size` all yield `None`, and the
/// envelope found is the only well-formed envelope encoded there.
pub fn decode(buf: &Vec<u8>, size: usize) -> (r: Option<Envelope>)
    requires
        size <= buf@.len(),
    ensures
        size < HEADER_LEN ==> r is None,
        r matches Some(env) ==> env_wf(env@) && is_encoding_prefix(env@, buf@.take(size as int)),
        forall|v: EnvelopeView|
            env_wf(v) && #[trigger] is_encoding_prefix(v, buf@.take(size as int)) ==> (r matches Some(env)
                && env@ == v),
{
    let ghost bytes = buf@.take(size as int);
    proof {
        assert forall|x: int, y: int| 0 <= x <= y <= size implies buf@.subrange(x, y)
            == bytes.subrange(x, y) by {
            assert(buf@.subrange(x, y) =~= bytes.subrange(x, y));
        }
    }
    if size < HEADER_LEN {
        proof {
            assert forall|v: EnvelopeView| !(env_wf(v) && #[trigger] is_encoding_prefix(
                v,
                bytes,
            )) by {
                if env_wf(v) {
                    lemma_encoding_len(v);
                }
            }
        }
        return None;
    }
    let pt_len_u32: u32 = read_u32_at(buf, 0);
    let aad_len_u32: u32 = read_u32_at(buf, 4);
    let alg: u32 = read_u32_at(buf, 8);
    let tag_len_u32: u32 = read_u32_at(buf, 40);
    proof {
        lemma_auto_spec_u32_to_from_le_bytes();
    }
    if alg != ALG_AES256GCM {
        proof {
            assert forall|v: EnvelopeView| !(env_wf(v) && #[trigger] is_encoding_prefix(
                v,
                bytes,
            )) by {
                if env_wf(v) && is_encoding_prefix(v, bytes) {
                    lemma_prefix_fields(v, bytes);
                }
            }
        }
        return None;
    }
    if tag_len_u32 != TAG_LEN as u32 {
        proof {
            assert forall|v: EnvelopeView| !(env_wf(v) && #[trigger] is_encoding_prefix(
                v,
                bytes,
            )) by {
                if env_wf(v) && is_encoding_prefix(v, bytes) {
                    lemma_prefix_fields(v, bytes);
                }
            }
        }
        return None;
    }
    let pt_len: usize = pt_len_u32 as usize;
    let aad_len: usize = aad_len_u32 as usize;
    let needed64: u64 = HEADER_LEN as u64 + aad_len as u64 + pt_len as u64 + TAG_LEN as u64;
    if needed64 > size as u64 {
        proof {
            assert forall|v: EnvelopeView| !(env_wf(v) && #[trigger] is_encoding_prefix(
                v,
                bytes,
            )) by {
                if env_wf(v) && is_encoding_prefix(v, bytes) {
                    lemma_prefix_fields(v, bytes);
                    assert(v.ciphertext.len() as u32 == pt_len_u32);
                    assert(v.aad.len() as u32 == aad_len_u32);
                }
            }
        }
        return None;
    }
    let salt = copy_range(buf, 12, SALT_LEN);
    let nonce = copy_range(buf, 28, NONCE_LEN);
    let aad = copy_range(buf, HEADER_LEN, aad_len);
    let ct_start: usize = HEADER_LEN + aad_len;
    let ciphertext = copy_range(buf, ct_start, pt_len);
    let tag = copy_range(buf, ct_start + pt_len, TAG_LEN);
    let env = Envelope { alg, salt, nonce, aad, ciphertext, tag };
    proof {
        assert(env_wf(env@));
        lemma_encoding_len(env@);
        let e = encoding_of(env@);
        assert(e =~= bytes.subrange(0, e.len() as int));
        assert(is_encoding_prefix(env@, bytes));
        assert forall|v: EnvelopeView|
            env_wf(v) && #[trigger] is_encoding_prefix(v, bytes) implies v == env@ by {
            lemma_prefix_unambiguous(v, env@, bytes);
        }
    }
    Some(env)
}

} // verus!
