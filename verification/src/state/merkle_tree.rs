use vstd::prelude::*;

use crate::state::pubkey::Pubkey;

verus! {

/// What the program keeps of a contribution Merkle tree: who may append to
/// it, how many contributions it holds, and when it was made. The tree itself
/// belongs to the account-compression program.
#[derive(Clone, Copy, Debug)]
pub struct ContributionTreeConfig {
    /// Authority that can append leaves to the tree (32 bytes)
    pub authority: Pubkey,
    /// Address of the concurrent Merkle tree account (32 bytes)
    pub merkle_tree: Pubkey,
    /// Number of contributions appended to the tree (8 bytes)
    pub total_contributions: u64,
    /// PDA bump seed (1 byte)
    pub bump: u8,
    /// Unix timestamp of tree creation (8 bytes)
    pub created_at: i64,
}

} // verus!
