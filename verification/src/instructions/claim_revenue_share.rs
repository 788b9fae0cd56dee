use vstd::prelude::*;

use crate::errors::RevenueError;
use crate::state::developer::DeveloperProfile;
use crate::state::pubkey::Pubkey;
use crate::state::revenue_claim::RevenueClaim;
use crate::state::revenue_event::{RevenueEvent, RevenueStatus};

verus! {

/// The records that a claim of a revenue share reads and changes.
#[derive(Clone, Copy, Debug)]
pub struct ClaimRevenueShare {
    pub revenue_event: RevenueEvent,
    /// Address of the revenue event
    pub revenue_event_key: Pubkey,
    /// The claimant's profile
    pub developer_profile: DeveloperProfile,
    /// Who claims
    pub claimant: Pubkey,
    /// What the vault of the developer pool holds
    pub developer_pool_vault_lamports: u64,
    /// Bump of the claim's address
    pub revenue_claim_bump: u8,
}

impl RevenueEvent {
    /// Whether shares of the event can still be claimed.
    pub open spec fn claimable(self) -> bool {
        self.status == RevenueStatus::Recorded || self.status == RevenueStatus::Distributing
    }

    /// The share of the developer pool that a contribution score of
    /// `contribution_score` earns: the pool in proportion to the score's part
    /// in the total score, rounded down.
    pub open spec fn share_of(self, contribution_score: u64) -> int {
        (self.developer_pool * contribution_score) / (self.total_contribution_score as int)
    }
}

impl ClaimRevenueShare {
    /// Why the claim is turned down, or `None` if it is paid. The event must
    /// be claimable, the claimant must have a score, the total score must not
    /// be zero, and the share must fit 64 bits, the vault, and the event's
    /// counter of what was claimed.
    pub open spec fn spec_error(self) -> Option<RevenueError> {
        let share = self.revenue_event.share_of(self.developer_profile.contribution_score);
        if !self.revenue_event.claimable() {
            Some(RevenueError::EventAlreadyCompleted)
        } else if self.developer_profile.contribution_score == 0 {
            Some(RevenueError::NoContributionScore)
        } else if self.revenue_event.total_contribution_score == 0 {
            Some(RevenueError::DivisionByZero)
        } else if share > u64::MAX {
            Some(RevenueError::ClaimOverflow)
        } else if self.developer_pool_vault_lamports < share {
            Some(RevenueError::InsufficientEscrowBalance)
        } else if self.revenue_event.claimed_amount + share > u64::MAX {
            Some(RevenueError::ClaimOverflow)
        } else {
            None
        }
    }

    /// The receipt of the claim.
    pub open spec fn spec_claim(self, now: i64) -> RevenueClaim {
        RevenueClaim {
            claimant: self.claimant,
            revenue_event: self.revenue_event_key,
            bump: self.revenue_claim_bump,
            contribution_score: self.developer_profile.contribution_score,
            total_score: self.revenue_event.total_contribution_score,
            amount: self.revenue_event.share_of(self.developer_profile.contribution_score) as u64,
            claimed_at: now,
        }
    }
}

/// Claims the claimant's share of the developer pool at the time `now` and
/// returns the receipt. The caller pays the receipt's amount out of the
/// vault.
pub fn handler(ctx: &mut ClaimRevenueShare, now: i64) -> (r: Result<RevenueClaim, RevenueError>)
    ensures
        match r {
            Ok(claim) => {
                &&& old(ctx).spec_error() is None
                &&& claim == old(ctx).spec_claim(now)
                &&& *final(ctx) == (ClaimRevenueShare {
                    revenue_event: RevenueEvent {
                        claimed_amount: (old(ctx).revenue_event.claimed_amount + claim.amount) as u64,
                        ..old(ctx).revenue_event
                    },
                    ..*old(ctx)
                })
            },
            Err(e) => old(ctx).spec_error() == Some(e) && *final(ctx) == *old(ctx),
        },
{
    if !(ctx.revenue_event.status == RevenueStatus::Recorded || ctx.revenue_event.status
        == RevenueStatus::Distributing) {
        return Err(RevenueError::EventAlreadyCompleted);
    }
    let contribution_score = ctx.developer_profile.contribution_score;
    if contribution_score == 0 {
        return Err(RevenueError::NoContributionScore);
    }
    let total_score = ctx.revenue_event.total_contribution_score;
    if total_score == 0 {
        return Err(RevenueError::DivisionByZero);
    }
    assert(ctx.revenue_event.developer_pool * contribution_score <= u64::MAX * u64::MAX)
        by (nonlinear_arith)
        requires
            ctx.revenue_event.developer_pool <= u64::MAX,
            contribution_score <= u64::MAX,
    ;
    let product: u128 = (ctx.revenue_event.developer_pool as u128) * (contribution_score as u128);
    let share: u128 = product / (total_score as u128);
    if share > u64::MAX as u128 {
        return Err(RevenueError::ClaimOverflow);
    }
    let amount: u64 = share as u64;
    if ctx.developer_pool_vault_lamports < amount {
        return Err(RevenueError::InsufficientEscrowBalance);
    }
    let claimed_amount = match ctx.revenue_event.claimed_amount.checked_add(amount) {
        Some(c) => c,
        None => {
            return Err(RevenueError::ClaimOverflow);
        },
    };
    let claim = RevenueClaim {
        claimant: ctx.claimant,
        revenue_event: ctx.revenue_event_key,
        bump: ctx.revenue_claim_bump,
        contribution_score,
        total_score,
        amount,
        claimed_at: now,
    };
    ctx.revenue_event.claimed_amount = claimed_amount;
    Ok(claim)
}

} // verus!
