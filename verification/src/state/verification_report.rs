use vstd::prelude::*;

use crate::state::pubkey::Pubkey;

verus! {

/// Who verified the work: an automatic verifier or peers.
#[derive(Clone, Copy, Debug, PartialEq, Eq, Structural)]
pub enum VerificationType {
    Ai,
    Peer,
}

/// Where a verification stands.
#[derive(Clone, Copy, Debug, PartialEq, Eq, Structural)]
pub enum VerificationStatus {
    Pending,
    Completed,
    Disputed,
}

/// The verification of a developer's work on one piece of work.
#[derive(Clone, Copy, Debug)]
pub struct VerificationReport {
    /// Developer who submitted the work (32 bytes)
    pub developer: Pubkey,
    /// SHA-256 hash of task reference (32 bytes)
    pub task_ref: [u8; 32],
    /// Canonical PDA bump (1 byte)
    pub bump: u8,
    /// Type of verification performed (1 byte)
    pub verification_type: VerificationType,
    /// Current status of the verification (1 byte)
    pub status: VerificationStatus,
    /// Overall score 0-10000 (maps to 0.00%-100.00%) (2 bytes)
    pub score: u16,
    /// AI confidence level 0-10000 (2 bytes)
    pub confidence: u16,
    /// SHA-256 of full off-chain report JSON (32 bytes)
    pub report_hash: [u8; 32],
    /// Unix timestamp when verification was performed (8 bytes)
    pub verified_at: i64,
    /// Number of peer reviews (0 for AI verification) (1 byte)
    pub reviewer_count: u8,
    /// Config version at time of verification (1 byte)
    pub config_version: u8,
}

} // verus!
