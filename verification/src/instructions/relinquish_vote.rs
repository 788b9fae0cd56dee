use vstd::prelude::*;

use crate::errors::GovernanceError;
use crate::state::idea_round::{IdeaRound, RoundStatus};
use crate::state::pubkey::Pubkey;
use crate::state::vote_deposit::VoteDeposit;
use crate::state::vote_record::VoteRecord;

verus! {

/// The records that the release of a vote reads and changes.
#[derive(Clone, Copy, Debug)]
pub struct RelinquishVote {
    /// The round of the vote
    pub round: IdeaRound,
    /// The voter's receipt of the vote
    pub vote_record: VoteRecord,
    /// The voter's stake
    pub vote_deposit: VoteDeposit,
    /// Who releases the vote
    pub voter: Pubkey,
}

impl RelinquishVote {
    /// Why the vote is not released, or `None` if it is. The round must be
    /// closed, and the stake must have an active vote to release.
    pub open spec fn spec_error(self) -> Option<GovernanceError> {
        if self.round.status != RoundStatus::Closed {
            Some(GovernanceError::RoundStillActive)
        } else if self.vote_deposit.active_votes == 0 {
            Some(GovernanceError::Overflow)
        } else {
            None
        }
    }
}

/// Releases one vote of a closed round: the stake has one active vote less.
///
/// The records are taken as they are handed in. That the receipt is the
/// voter's, and for that round, is for whoever looks the records up: see
/// `crate::program::relinquish_vote`.
pub fn handler(ctx: &mut RelinquishVote) -> (r: Result<(), GovernanceError>)
    ensures
        match r {
            Ok(()) => {
                &&& old(ctx).spec_error() is None
                &&& *final(ctx) == (RelinquishVote {
                    vote_deposit: VoteDeposit {
                        active_votes: (old(ctx).vote_deposit.active_votes - 1) as u32,
                        ..old(ctx).vote_deposit
                    },
                    ..*old(ctx)
                })
            },
            Err(e) => old(ctx).spec_error() == Some(e) && *final(ctx) == *old(ctx),
        },
{
    if ctx.round.status != RoundStatus::Closed {
        return Err(GovernanceError::RoundStillActive);
    }
    let active_votes = match ctx.vote_deposit.active_votes.checked_sub(1) {
        Some(v) => v,
        None => {
            return Err(GovernanceError::Overflow);
        },
    };
    ctx.vote_deposit.active_votes = active_votes;
    Ok(())
}

} // verus!
