use vstd::prelude::*;

use crate::state::pubkey::Pubkey;

verus! {

/// What the program keeps of a peer who judges others' work.
#[derive(Clone, Copy, Debug)]
pub struct ReviewerProfile {
    /// Authority of the profile (32 bytes)
    pub authority: Pubkey,
    /// Canonical PDA bump (1 byte)
    pub bump: u8,
    /// Tier: 1=Explorer, 2=Builder, 3=Architect (1 byte)
    pub tier: u8,
    /// Total number of reviews submitted (4 bytes)
    pub total_reviews: u32,
    /// Total verified contributions (4 bytes)
    pub verified_contributions: u32,
    /// Review quality score 0-10000 (2 bytes)
    pub quality_score: u16,
    /// Unix timestamp of last profile update (8 bytes)
    pub updated_at: i64,
}

} // verus!
