use vstd::prelude::*;

use crate::state::pubkey::Pubkey;
use crate::state::vote_record::VoteChoice;

verus! {

/// Where an idea stands. A veto is final.
#[derive(Clone, Copy, Debug, PartialEq, Eq, Structural)]
pub enum IdeaStatus {
    Submitted,
    Approved,
    Rejected,
    Vetoed,
}

/// A proposal submitted to a round, with the weight cast for each choice.
#[derive(Clone, Copy, Debug)]
pub struct Idea {
    /// Wallet that submitted the idea (32 bytes)
    pub author: Pubkey,
    /// The IdeaRound this idea belongs to (32 bytes)
    pub round: Pubkey,
    /// Sequential index within the round (4 bytes)
    pub idea_index: u32,
    /// Canonical PDA bump (1 byte)
    pub bump: u8,
    /// Current status of the idea (1 byte)
    pub status: IdeaStatus,
    /// SHA-256 hash of off-chain idea content (32 bytes)
    pub content_hash: [u8; 32],
    /// Unix timestamp of submission (8 bytes)
    pub submitted_at: i64,
    /// Total weight of Yes votes (8 bytes)
    pub yes_weight: u64,
    /// Total weight of No votes (8 bytes)
    pub no_weight: u64,
    /// Total weight of Abstain votes (8 bytes)
    pub abstain_weight: u64,
    /// Number of unique voters (4 bytes)
    pub voter_count: u32,
    /// Unix timestamp after which idea can be executed if approved (8 bytes)
    pub execution_eligible_at: i64,
}

impl Idea {
    /// The weight of all votes cast on the idea, whatever their choice.
    pub open spec fn total_weight(self) -> nat {
        (self.yes_weight + self.no_weight + self.abstain_weight) as nat
    }

    /// The weight cast so far for `choice`.
    pub open spec fn weight_for(self, choice: VoteChoice) -> u64 {
        match choice {
            VoteChoice::Yes => self.yes_weight,
            VoteChoice::No => self.no_weight,
            VoteChoice::Abstain => self.abstain_weight,
        }
    }

    /// Whether one more vote of `weight` for `choice` fits the counters.
    pub open spec fn can_tally(self, choice: VoteChoice, weight: u64) -> bool {
        self.weight_for(choice) + weight <= u64::MAX && self.voter_count < u32::MAX
    }

    /// The idea after one more vote of `weight` for `choice`: the weight is
    /// added to that choice's counter, and one voter more is counted.
    pub open spec fn spec_tally(self, choice: VoteChoice, weight: u64) -> Idea {
        let counted = Idea { voter_count: (self.voter_count + 1) as u32, ..self };
        match choice {
            VoteChoice::Yes => Idea { yes_weight: (self.yes_weight + weight) as u64, ..counted },
            VoteChoice::No => Idea { no_weight: (self.no_weight + weight) as u64, ..counted },
            VoteChoice::Abstain => Idea {
                abstain_weight: (self.abstain_weight + weight) as u64,
                ..counted
            },
        }
    }

    /// Whether the veto authority may still veto the idea.
    pub open spec fn vetoable(self) -> bool {
        self.status == IdeaStatus::Submitted || self.status == IdeaStatus::Approved
    }
}

} // verus!
