use vstd::prelude::*;

use crate::errors::GovernanceError;
use crate::state::idea_round::{IdeaRound, RoundStatus};

verus! {

/// The record that a transition reads and changes.
#[derive(Clone, Copy, Debug)]
pub struct TransitionRound {
    pub idea_round: IdeaRound,
}

impl RoundStatus {
    /// The place of the status in the lifecycle: 0 for `Open`, 1 for
    /// `Voting`, 2 for `Closed`.
    pub open spec fn rank(self) -> nat {
        match self {
            RoundStatus::Open => 0,
            RoundStatus::Voting => 1,
            RoundStatus::Closed => 2,
        }
    }
}

impl IdeaRound {
    /// What a transition at the time `now` does to the round. An open round
    /// starts voting once its submission window has ended; a voting round
    /// closes once its voting has ended; before that the transition is too
    /// early. A closed round stays closed.
    pub open spec fn spec_advance(self, now: i64) -> Result<IdeaRound, GovernanceError> {
        match self.status {
            RoundStatus::Open => if now >= self.submission_end {
                Ok(IdeaRound { status: RoundStatus::Voting, ..self })
            } else {
                Err(GovernanceError::TooEarly)
            },
            RoundStatus::Voting => if now >= self.voting_end {
                Ok(IdeaRound { status: RoundStatus::Closed, ..self })
            } else {
                Err(GovernanceError::TooEarly)
            },
            RoundStatus::Closed => Err(GovernanceError::AlreadyClosed),
        }
    }
}

/// Moves the round one state forward if its deadline has passed at `now`.
/// Anyone may ask for this, at any time and as often as they like.
pub fn handler(ctx: &mut TransitionRound, now: i64) -> (r: Result<(), GovernanceError>)
    ensures
        match r {
            Ok(()) => old(ctx).idea_round.spec_advance(now) == Ok::<IdeaRound, GovernanceError>(
                final(ctx).idea_round,
            ),
            Err(e) => old(ctx).idea_round.spec_advance(now) == Err::<IdeaRound, GovernanceError>(e)
                && *final(ctx) == *old(ctx),
        },
        final(ctx).idea_round.status.rank() >= old(ctx).idea_round.status.rank(),
        r is Ok ==> final(ctx).idea_round.status.rank() == old(ctx).idea_round.status.rank() + 1,
{
    match ctx.idea_round.status {
        RoundStatus::Open => {
            if now < ctx.idea_round.submission_end {
                return Err(GovernanceError::TooEarly);
            }
            ctx.idea_round.status = RoundStatus::Voting;
        },
        RoundStatus::Voting => {
            if now < ctx.idea_round.voting_end {
                return Err(GovernanceError::TooEarly);
            }
            ctx.idea_round.status = RoundStatus::Closed;
        },
        RoundStatus::Closed => {
            return Err(GovernanceError::AlreadyClosed);
        },
    }
    Ok(())
}

} // verus!
