use vstd::prelude::*;

use crate::errors::GovernanceError;
use crate::state::governance_config::GovernanceConfig;
use crate::state::idea_round::{IdeaRound, QuorumType, RoundStatus};
use crate::state::pubkey::Pubkey;

verus! {

/// The records that the creation of a round reads and changes.
#[derive(Clone, Copy, Debug)]
pub struct CreateRound {
    pub governance_config: GovernanceConfig,
    /// Who asks for the round
    pub admin: Pubkey,
    /// Bump of the new round's address
    pub idea_round_bump: u8,
}

/// Whether the three times of a round are in order: all positive, the
/// submission window before its end, and that before the end of voting.
pub open spec fn valid_timestamps(submission_start: i64, submission_end: i64, voting_end: i64) -> bool {
    0 < submission_start < submission_end < voting_end
}

impl CreateRound {
    /// Why the round is not created, or `None` if it is. Only the admin may
    /// create a round; its times must be in order; the round counter must
    /// have room for it.
    pub open spec fn spec_error(
        self,
        submission_start: i64,
        submission_end: i64,
        voting_end: i64,
    ) -> Option<GovernanceError> {
        if self.admin != self.governance_config.admin {
            Some(GovernanceError::UnauthorizedAdmin)
        } else if !valid_timestamps(submission_start, submission_end, voting_end) {
            Some(GovernanceError::InvalidTimestamps)
        } else if self.governance_config.round_count == u32::MAX {
            Some(GovernanceError::Overflow)
        } else {
            None
        }
    }

    /// The new round: open, without ideas, numbered by the round counter.
    pub open spec fn spec_round(
        self,
        submission_start: i64,
        submission_end: i64,
        voting_end: i64,
        quorum_type: QuorumType,
        content_hash: [u8; 32],
    ) -> IdeaRound {
        IdeaRound {
            authority: self.admin,
            round_index: self.governance_config.round_count,
            bump: self.idea_round_bump,
            status: RoundStatus::Open,
            submission_start,
            submission_end,
            voting_end,
            idea_count: 0,
            quorum_type,
            content_hash,
        }
    }
}

/// Creates a round and counts it in the configuration.
pub fn handler(
    ctx: &mut CreateRound,
    submission_start: i64,
    submission_end: i64,
    voting_end: i64,
    quorum_type: QuorumType,
    content_hash: [u8; 32],
) -> (r: Result<IdeaRound, GovernanceError>)
    ensures
        match r {
            Ok(round) => {
                &&& old(ctx).spec_error(submission_start, submission_end, voting_end) is None
                &&& round == old(ctx).spec_round(
                    submission_start,
                    submission_end,
                    voting_end,
                    quorum_type,
                    content_hash,
                )
                &&& *final(ctx) == (CreateRound {
                    governance_config: GovernanceConfig {
                        round_count: (old(ctx).governance_config.round_count + 1) as u32,
                        ..old(ctx).governance_config
                    },
                    ..*old(ctx)
                })
            },
            Err(e) => {
                &&& old(ctx).spec_error(submission_start, submission_end, voting_end) == Some(e)
                &&& *final(ctx) == *old(ctx)
            },
        },
{
    if ctx.admin != ctx.governance_config.admin {
        return Err(GovernanceError::UnauthorizedAdmin);
    }
    if !(submission_start > 0 && submission_end > 0 && voting_end > 0) {
        return Err(GovernanceError::InvalidTimestamps);
    }
    if !(submission_start < submission_end && submission_end < voting_end) {
        return Err(GovernanceError::InvalidTimestamps);
    }
    let round_count = match ctx.governance_config.round_count.checked_add(1) {
        Some(c) => c,
        None => {
            return Err(GovernanceError::Overflow);
        },
    };
    let round = IdeaRound {
        authority: ctx.admin,
        round_index: ctx.governance_config.round_count,
        bump: ctx.idea_round_bump,
        status: RoundStatus::Open,
        submission_start,
        submission_end,
        voting_end,
        idea_count: 0,
        quorum_type,
        content_hash,
    };
    ctx.governance_config.round_count = round_count;
    Ok(round)
}

} // verus!
