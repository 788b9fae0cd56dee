use vstd::prelude::*;

use crate::errors::GovernanceError;
use crate::state::governance_config::GovernanceConfig;
use crate::state::idea::{Idea, IdeaStatus};
use crate::state::idea_round::IdeaRound;
use crate::state::pubkey::Pubkey;

verus! {

/// The records that a veto reads and changes.
#[derive(Clone, Copy, Debug)]
pub struct VetoIdea {
    pub idea: Idea,
    pub round: IdeaRound,
    pub governance_config: GovernanceConfig,
    /// Who asks for the veto
    pub veto_authority: Pubkey,
}

impl VetoIdea {
    /// Why the veto is turned down, or `None` if it is taken. Only the
    /// configured veto authority may veto, and only an idea that is
    /// submitted or approved.
    pub open spec fn spec_error(self) -> Option<GovernanceError> {
        if self.veto_authority != self.governance_config.veto_authority {
            Some(GovernanceError::UnauthorizedVeto)
        } else if !self.idea.vetoable() {
            Some(GovernanceError::NotVetoable)
        } else {
            None
        }
    }
}

/// Vetoes the idea. A vetoed idea cannot be vetoed again.
pub fn handler(ctx: &mut VetoIdea) -> (r: Result<(), GovernanceError>)
    ensures
        match r {
            Ok(()) => {
                &&& old(ctx).spec_error() is None
                &&& *final(ctx) == (VetoIdea {
                    idea: Idea { status: IdeaStatus::Vetoed, ..old(ctx).idea },
                    ..*old(ctx)
                })
            },
            Err(e) => old(ctx).spec_error() == Some(e) && *final(ctx) == *old(ctx),
        },
        r is Ok ==> !final(ctx).idea.vetoable(),
{
    if ctx.veto_authority != ctx.governance_config.veto_authority {
        return Err(GovernanceError::UnauthorizedVeto);
    }
    if !(ctx.idea.status == IdeaStatus::Submitted || ctx.idea.status == IdeaStatus::Approved) {
        return Err(GovernanceError::NotVetoable);
    }
    ctx.idea.status = IdeaStatus::Vetoed;
    Ok(())
}

} // verus!
