use vstd::prelude::*;

use crate::state::pubkey::Pubkey;

verus! {

/// One peer's verdict on a verification that waits for peers.
#[derive(Clone, Copy, Debug)]
pub struct PeerReview {
    /// Who wrote the review (32 bytes)
    pub reviewer: Pubkey,
    /// Links to the VerificationReport PDA (32 bytes)
    pub verification_report: Pubkey,
    /// Canonical PDA bump (1 byte)
    pub bump: u8,
    /// Tier of the review's author: 1=Explorer, 2=Builder, 3=Architect (1 byte)
    pub tier: u8,
    /// Tier weight in basis points (1000, 2000, 3000) (2 bytes)
    pub weight: u16,
    /// Review score 0-10000 (2 bytes)
    pub score: u16,
    /// Pass/fail verdict (1 byte)
    pub passed: bool,
    /// SHA-256 of full off-chain review evidence (32 bytes)
    pub review_hash: [u8; 32],
    /// Unix timestamp when review was submitted (8 bytes)
    pub reviewed_at: i64,
}

} // verus!
