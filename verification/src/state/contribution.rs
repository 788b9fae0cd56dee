use vstd::prelude::*;

use crate::hash::{sha256, sha256_digest};
use crate::state::pubkey::Pubkey;

verus! {

/// One contribution, as it enters the contribution log.
///
/// It is not stored as a record of its own: its bytes are hashed and the
/// digest is appended as a leaf to the concurrent Merkle tree. The bytes
/// themselves are logged, so that indexers can rebuild the contributions.
#[derive(Clone, Copy, Debug)]
pub struct ContributionLeaf {
    /// Wallet that made the contribution (32 bytes)
    pub developer: Pubkey,
    /// SHA-256 hash of the task identifier (32 bytes)
    pub task_ref: [u8; 32],
    /// Verification score: 0-10000 representing 0.00%-100.00% (2 bytes)
    pub verification_score: u16,
    /// Unix timestamp of when the contribution was recorded (8 bytes)
    pub timestamp: i64,
    /// SHA-256 hash of off-chain contribution content (32 bytes)
    pub content_hash: [u8; 32],
}

/// The eight bytes of a signed 64-bit integer in two's complement, least
/// significant byte first.
pub open spec fn spec_i64_to_le_bytes(x: i64) -> Seq<u8> {
    vstd::bytes::spec_u64_to_le_bytes(
        if x >= 0 {
            x as u64
        } else {
            (x + 0x1_0000_0000_0000_0000) as u64
        },
    )
}

/// The eight bytes of `x` in two's complement, least significant byte first.
pub fn i64_to_le_bytes(x: i64) -> (bytes: Vec<u8>)
    ensures
        bytes@ == spec_i64_to_le_bytes(x),
        bytes@.len() == 8,
{
    if x >= 0 {
        vstd::bytes::u64_to_le_bytes(x as u64)
    } else {
        let magnitude: u64 = (x - i64::MIN) as u64;
        vstd::bytes::u64_to_le_bytes(magnitude + 0x8000_0000_0000_0000)
    }
}

impl ContributionLeaf {
    /// Length of a leaf's bytes.
    pub const SIZE: usize = 106;

    /// The bytes of the leaf: the fields in order at fixed widths, integers
    /// little-endian.
    pub open spec fn spec_to_bytes(self) -> Seq<u8> {
        self.developer@ + self.task_ref@ + vstd::bytes::spec_u16_to_le_bytes(
            self.verification_score,
        ) + spec_i64_to_le_bytes(self.timestamp) + self.content_hash@
    }

    /// Writes the leaf out as bytes.
    pub fn to_bytes(&self) -> (bytes: Vec<u8>)
        ensures
            bytes@ == self.spec_to_bytes(),
            bytes@.len() == 106,
    {
        let score = vstd::bytes::u16_to_le_bytes(self.verification_score);
        let timestamp = i64_to_le_bytes(self.timestamp);
        let mut bytes: Vec<u8> = Vec::with_capacity(106);
        bytes.extend_from_slice(self.developer.bytes.as_slice());
        bytes.extend_from_slice(self.task_ref.as_slice());
        bytes.extend_from_slice(score.as_slice());
        bytes.extend_from_slice(timestamp.as_slice());
        bytes.extend_from_slice(self.content_hash.as_slice());
        assert(bytes@ =~= self.spec_to_bytes());
        bytes
    }

    /// The digest under which the leaf enters the Merkle tree: the SHA-256
    /// digest of its bytes.
    pub fn to_leaf_hash(&self) -> (digest: [u8; 32])
        ensures
            digest@ == sha256(self.spec_to_bytes()),
    {
        let data = self.to_bytes();
        sha256_digest(data.as_slice())
    }
}

} // verus!
