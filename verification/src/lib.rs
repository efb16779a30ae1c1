//! A minimal sealed-data library: a small secret record is protected by
//! authenticated encryption under a key derived from an ambient identity
//! context, serialized into a caller-owned buffer, and later reconstructed
//! only under the same identity context.

use vstd::prelude::*;

pub mod codec;
pub mod crypto;
pub mod engine;
pub mod envelope;
pub mod record;
pub mod rng;

verus! {

/// Length in bytes of the derived AEAD key (AES-256-GCM).
pub const KEY_LEN: usize = 32;
/// Length in bytes of the per-call key-derivation salt.
pub const SALT_LEN: usize = 16;
/// Length in bytes of the AEAD nonce.
pub const NONCE_LEN: usize = 12;
/// Length in bytes of the authentication tag.
pub const TAG_LEN: usize = 16;
/// Algorithm identifier recorded in every envelope header.
pub const ALG_AES256GCM: u32 = 1;
/// Length in bytes of the fixed envelope header: three u32 length/algorithm
/// fields, the salt, the nonce, and the u32 tag-length field.
pub const HEADER_LEN: usize = 44;
/// Length in bytes of a serialized record: a u32 key and 16 random bytes.
pub const RECORD_BYTES: usize = 20;
/// Number of random bytes in a record.
pub const RECORD_RAND_LEN: usize = 16;
/// The fixed demonstration key stored in every generated record.
pub const DEMO_KEY: u32 = 0x1234;

/// The closed set of failures a sealing or unsealing flow can report.
#[derive(Clone, Copy, Debug, PartialEq, Eq, Structural)]
pub enum SealError {
    /// The entropy source was unavailable or returned insufficient entropy.
    RngFailure,
    /// The identity context needed to derive the sealing key could not be read.
    KeyDerivationFailure,
    /// The authenticated-encryption transform reported an error.
    EncryptionFailure,
    /// The caller-supplied buffer cannot hold the exact encoded envelope.
    BufferTooSmall,
    /// The envelope is structurally invalid.
    Corrupt,
    /// Authentication failed: the envelope was tampered with, or the current
    /// identity context differs from the one at sealing time.
    MacMismatch,
}

} // verus!
