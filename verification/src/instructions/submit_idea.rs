use vstd::prelude::*;

use crate::errors::GovernanceError;
use crate::state::idea::{Idea, IdeaStatus};
use crate::state::idea_round::{IdeaRound, RoundStatus};
use crate::state::pubkey::Pubkey;

verus! {

/// The records that the submission of an idea reads and changes.
#[derive(Clone, Copy, Debug)]
pub struct SubmitIdea {
    pub idea_round: IdeaRound,
    /// Address of the round
    pub idea_round_key: Pubkey,
    /// Who submits the idea
    pub author: Pubkey,
    /// Bump of the new idea's address
    pub idea_bump: u8,
}

impl SubmitIdea {
    /// Why the idea is not taken at the time `now`, or `None` if it is. The
    /// round must be open, `now` within its submission window, and its idea
    /// counter must have room.
    pub open spec fn spec_error(self, now: i64) -> Option<GovernanceError> {
        if self.idea_round.status != RoundStatus::Open {
            Some(GovernanceError::RoundNotOpen)
        } else if !(self.idea_round.submission_start <= now < self.idea_round.submission_end) {
            Some(GovernanceError::SubmissionPeriodEnded)
        } else if self.idea_round.idea_count == u32::MAX {
            Some(GovernanceError::Overflow)
        } else {
            None
        }
    }

    /// The new idea: submitted, without votes, numbered by the round's idea
    /// counter.
    pub open spec fn spec_idea(self, content_hash: [u8; 32], now: i64) -> Idea {
        Idea {
            author: self.author,
            round: self.idea_round_key,
            idea_index: self.idea_round.idea_count,
            bump: self.idea_bump,
            status: IdeaStatus::Submitted,
            content_hash,
            submitted_at: now,
            yes_weight: 0,
            no_weight: 0,
            abstain_weight: 0,
            voter_count: 0,
            execution_eligible_at: 0,
        }
    }
}

/// Submits an idea to the round at the time `now` and counts it in the round.
pub fn handler(ctx: &mut SubmitIdea, content_hash: [u8; 32], now: i64) -> (r: Result<
    Idea,
    GovernanceError,
>)
    ensures
        match r {
            Ok(idea) => {
                &&& old(ctx).spec_error(now) is None
                &&& idea == old(ctx).spec_idea(content_hash, now)
                &&& *final(ctx) == (SubmitIdea {
                    idea_round: IdeaRound {
                        idea_count: (old(ctx).idea_round.idea_count + 1) as u32,
                        ..old(ctx).idea_round
                    },
                    ..*old(ctx)
                })
            },
            Err(e) => old(ctx).spec_error(now) == Some(e) && *final(ctx) == *old(ctx),
        },
{
    if ctx.idea_round.status != RoundStatus::Open {
        return Err(GovernanceError::RoundNotOpen);
    }
    if !(now >= ctx.idea_round.submission_start && now < ctx.idea_round.submission_end) {
        return Err(GovernanceError::SubmissionPeriodEnded);
    }
    let idea_count = match ctx.idea_round.idea_count.checked_add(1) {
        Some(c) => c,
        None => {
            return Err(GovernanceError::Overflow);
        },
    };
    let idea = Idea {
        author: ctx.author,
        round: ctx.idea_round_key,
        idea_index: ctx.idea_round.idea_count,
        bump: ctx.idea_bump,
        status: IdeaStatus::Submitted,
        content_hash,
        submitted_at: now,
        yes_weight: 0,
        no_weight: 0,
        abstain_weight: 0,
        voter_count: 0,
        execution_eligible_at: 0,
    };
    ctx.idea_round.idea_count = idea_count;
    Ok(idea)
}

} // verus!
