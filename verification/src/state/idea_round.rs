use vstd::prelude::*;

use crate::state::pubkey::Pubkey;

verus! {

/// Where a round stands in its lifecycle. A round only moves forward:
/// from `Open` to `Voting` to `Closed`.
#[derive(Clone, Copy, Debug, PartialEq, Eq, Structural)]
pub enum RoundStatus {
    Open,
    Voting,
    Closed,
}

/// The category of a round's proposals, which fixes the share of the total
/// stake that must take part for an idea to pass.
#[derive(Clone, Copy, Debug, PartialEq, Eq, Structural)]
pub enum QuorumType {
    Small,
    Treasury,
    ParameterChange,
}

impl QuorumType {
    /// The required quorum in basis points: 5% for `Small`, 20% for
    /// `Treasury`, 33% for `ParameterChange`.
    pub open spec fn spec_required_bps(self) -> u64 {
        match self {
            QuorumType::Small => 500,
            QuorumType::Treasury => 2000,
            QuorumType::ParameterChange => 3300,
        }
    }

    /// Returns the required basis points (bps) for quorum.
    pub fn required_bps(&self) -> (bps: u64)
        ensures
            bps == self.spec_required_bps(),
            *self == QuorumType::Small ==> bps == 500,
            *self == QuorumType::Treasury ==> bps == 2000,
            *self == QuorumType::ParameterChange ==> bps == 3300,
    {
        match self {
            QuorumType::Small => 500,
            QuorumType::Treasury => 2000,
            QuorumType::ParameterChange => 3300,
        }
    }
}

/// A time-boxed governance cycle with a submission window followed by a
/// voting window.
#[derive(Clone, Copy, Debug)]
pub struct IdeaRound {
    /// Authority who created this round (32 bytes)
    pub authority: Pubkey,
    /// Sequential index of this round (4 bytes)
    pub round_index: u32,
    /// Canonical PDA bump (1 byte)
    pub bump: u8,
    /// Current status of the round (1 byte)
    pub status: RoundStatus,
    /// Unix timestamp when idea submissions open (8 bytes)
    pub submission_start: i64,
    /// Unix timestamp when idea submissions close (8 bytes)
    pub submission_end: i64,
    /// Unix timestamp when voting ends (8 bytes)
    pub voting_end: i64,
    /// Number of ideas submitted to this round (4 bytes)
    pub idea_count: u32,
    /// Quorum type determining required vote threshold (1 byte)
    pub quorum_type: QuorumType,
    /// SHA-256 hash of off-chain round metadata (32 bytes)
    pub content_hash: [u8; 32],
}

} // verus!
