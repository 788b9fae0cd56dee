use vstd::prelude::*;

use crate::errors::GovernanceError;
use crate::state::delegation_record::DelegationRecord;
use crate::state::governance_config::GovernanceConfig;
use crate::state::pubkey::Pubkey;
use crate::state::vote_deposit::VoteDeposit;

verus! {

/// The records that a delegation reads.
#[derive(Clone, Copy, Debug)]
pub struct DelegateVote {
    pub governance_config: GovernanceConfig,
    /// The delegator's stake
    pub vote_deposit: VoteDeposit,
    /// Who lends their voting power
    pub delegator: Pubkey,
    /// Who receives it
    pub delegate: Pubkey,
    /// Bump of the new record's address
    pub delegation_record_bump: u8,
}

impl DelegateVote {
    /// Why the delegation is turned down, or `None` if it is taken. The
    /// delegator must have a stake, and no active votes on it.
    pub open spec fn spec_error(self) -> Option<GovernanceError> {
        if self.vote_deposit.deposited_amount == 0 {
            Some(GovernanceError::NoDeposit)
        } else if self.vote_deposit.active_votes != 0 {
            Some(GovernanceError::CannotDelegateWithActiveVotes)
        } else {
            None
        }
    }

    /// The new record: active, for the whole stake as it stands at the time
    /// `now`, in effect from the round that the round counter names.
    pub open spec fn spec_record(self, now: i64) -> DelegationRecord {
        DelegationRecord {
            delegator: self.delegator,
            delegate: self.delegate,
            bump: self.delegation_record_bump,
            delegated_amount: self.vote_deposit.deposited_amount,
            delegated_at: now,
            is_active: true,
            effective_from_round: self.governance_config.round_count,
        }
    }
}

/// Delegates the delegator's whole stake to the delegate at the time `now`
/// and returns the record of it.
///
/// A delegator has one delegation at most: whoever stores the record sees to
/// it that none is stored yet; see `crate::program::delegate_vote`.
pub fn handler(ctx: &DelegateVote, now: i64) -> (r: Result<DelegationRecord, GovernanceError>)
    ensures
        match r {
            Ok(record) => ctx.spec_error() is None && record == ctx.spec_record(now),
            Err(e) => ctx.spec_error() == Some(e),
        },
{
    if ctx.vote_deposit.deposited_amount == 0 {
        return Err(GovernanceError::NoDeposit);
    }
    if ctx.vote_deposit.active_votes != 0 {
        return Err(GovernanceError::CannotDelegateWithActiveVotes);
    }
    Ok(
        DelegationRecord {
            delegator: ctx.delegator,
            delegate: ctx.delegate,
            bump: ctx.delegation_record_bump,
            delegated_amount: ctx.vote_deposit.deposited_amount,
            delegated_at: now,
            is_active: true,
            effective_from_round: ctx.governance_config.round_count,
        },
    )
}

} // verus!
