//! The secret record: a fixed-shape payload of a 32-bit key and 16 random
//! bytes, generated fresh per sealing call and never itself persisted.

use vstd::bytes::lemma_auto_spec_u32_to_from_le_bytes;
use vstd::bytes::spec_u32_from_le_bytes;
use vstd::bytes::spec_u32_to_le_bytes;
use vstd::bytes::u32_from_le_bytes;
use vstd::bytes::u32_to_le_bytes;
use vstd::prelude::*;
use vstd::slice::slice_subrange;

use crate::rng::fill_random;
use crate::SealError;
use crate::DEMO_KEY;
use crate::RECORD_BYTES;
use crate::RECORD_RAND_LEN;

verus! {

/// The fixed-shape secret payload.
#[derive(Clone, Debug)]
pub struct Record {
    pub key: u32,
    pub rand: Vec<u8>,
}

/// A record is well-formed when it carries exactly its fixed number of
/// random bytes.
pub open spec fn record_wf(r: Record) -> bool {
    r.rand@.len() == RECORD_RAND_LEN
}

/// The serialized form of a record: the key in little-endian order followed
/// by the random bytes.
pub open spec fn record_bytes(r: Record) -> Seq<u8> {
    spec_u32_to_le_bytes(r.key) + r.rand@
}

impl Record {
    /// Produces a fresh record: the fixed demonstration key and 16 bytes
    /// drawn from the secure entropy source. Fails with `RngFailure` when the
    /// source is unavailable; no partial record is returned.
    pub fn generate() -> (r: Result<Record, SealError>)
        ensures
            r matches Ok(rec) ==> record_wf(rec) && rec.key == DEMO_KEY,
            r matches Err(e) ==> e == SealError::RngFailure,
    {
        match fill_random(RECORD_RAND_LEN) {
            Some(rand) => Ok(Record { key: DEMO_KEY, rand }),
            None => Err(SealError::RngFailure),
        }
    }

    /// Serializes the record into its fixed 20-byte form.
    pub fn to_bytes(&self) -> (b: Vec<u8>)
        requires
            record_wf(*self),
        ensures
            b@ == record_bytes(*self),
            b@.len() == RECORD_BYTES,
    {
        let mut b = u32_to_le_bytes(self.key);
        let mut i: usize = 0;
        while i < self.rand.len()
            invariant
                record_wf(*self),
                i <= self.rand@.len(),
                b@ == spec_u32_to_le_bytes(self.key) + self.rand@.take(i as int),
            decreases self.rand@.len() - i,
        {
            b.push(self.rand[i]);
            i += 1;
            proof {
                assert(self.rand@.take(i as int) =~= self.rand@.take(i - 1) + seq![self.rand@[i - 1]]);
            }
        }
        proof {
            lemma_auto_spec_u32_to_from_le_bytes();
            assert(self.rand@.take(self.rand@.len() as int) =~= self.rand@);
        }
        b
    }

    /// Reconstructs a record from its fixed 20-byte serialized form.
    pub fn from_bytes(b: &Vec<u8>) -> (r: Record)
        requires
            b@.len() == RECORD_BYTES,
        ensures
            record_wf(r),
            record_bytes(r) == b@,
    {
        let key: u32 = u32_from_le_bytes(slice_subrange(b.as_slice(), 0, 4));
        let mut rand: Vec<u8> = Vec::new();
        let mut i: usize = 4;
        while i < b.len()
            invariant
                b@.len() == RECORD_BYTES,
                4 <= i <= b@.len(),
                rand@ == b@.subrange(4, i as int),
            decreases b@.len() - i,
        {
            rand.push(b[i]);
            i += 1;
            proof {
                assert(b@.subrange(4, i as int) =~= b@.subrange(4, i - 1) + seq![b@[i - 1]]);
            }
        }
        let r = Record { key, rand };
        proof {
            lemma_auto_spec_u32_to_from_le_bytes();
            assert(spec_u32_to_le_bytes(spec_u32_from_le_bytes(b@.subrange(0, 4))) == b@.subrange(
                0,
                4,
            ));
            assert(record_bytes(r) =~= b@);
        }
        r
    }
}

} // verus!
