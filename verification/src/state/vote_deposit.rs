use vstd::prelude::*;

use crate::state::pubkey::Pubkey;

verus! {

/// A voter's staked tokens. The stake may vote from `eligible_at` on, and
/// cannot be withdrawn while `active_votes` is not zero.
#[derive(Clone, Copy, Debug)]
pub struct VoteDeposit {
    /// Wallet that deposited tokens (32 bytes)
    pub authority: Pubkey,
    /// Canonical PDA bump (1 byte)
    pub bump: u8,
    /// Amount of governance tokens deposited (8 bytes)
    pub deposited_amount: u64,
    /// Unix timestamp when tokens were deposited (8 bytes)
    pub deposit_timestamp: i64,
    /// Unix timestamp when tokens become eligible for voting (8 bytes)
    pub eligible_at: i64,
    /// Number of currently active votes using this deposit (4 bytes)
    pub active_votes: u32,
}

impl VoteDeposit {
    /// The deposit of an owner who has never deposited: every field zero.
    pub open spec fn spec_empty(authority: Pubkey) -> VoteDeposit {
        VoteDeposit {
            authority,
            bump: 0,
            deposited_amount: 0,
            deposit_timestamp: 0,
            eligible_at: 0,
            active_votes: 0,
        }
    }

    /// The deposit of an owner who has never deposited: every field zero.
    pub fn empty(authority: Pubkey) -> (deposit: VoteDeposit)
        ensures
            deposit == VoteDeposit::spec_empty(authority),
    {
        VoteDeposit {
            authority,
            bump: 0,
            deposited_amount: 0,
            deposit_timestamp: 0,
            eligible_at: 0,
            active_votes: 0,
        }
    }

    /// Whether the stake may be used to vote at the time `now`.
    pub open spec fn eligible(self, now: i64) -> bool {
        now >= self.eligible_at
    }
}

} // verus!
