use vstd::prelude::*;

use crate::state::pubkey::Pubkey;

verus! {

/// What a voter says of an idea.
#[derive(Clone, Copy, Debug, PartialEq, Eq, Structural)]
pub enum VoteChoice {
    Yes,
    No,
    Abstain,
}

/// The receipt of one vote. There is at most one per voter and idea, and it
/// never changes once written.
#[derive(Clone, Copy, Debug)]
pub struct VoteRecord {
    /// Wallet that cast the vote (32 bytes)
    pub voter: Pubkey,
    /// The Idea account this vote is for (32 bytes)
    pub idea: Pubkey,
    /// The IdeaRound this vote belongs to (32 bytes)
    pub round: Pubkey,
    /// Canonical PDA bump (1 byte)
    pub bump: u8,
    /// The voter's choice (1 byte)
    pub vote: VoteChoice,
    /// Token weight applied to this vote (8 bytes)
    pub weight: u64,
    /// Unix timestamp of when the vote was cast (8 bytes)
    pub voted_at: i64,
}

} // verus!
