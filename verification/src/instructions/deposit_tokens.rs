use vstd::prelude::*;

use crate::errors::GovernanceError;
use crate::instructions::cast_vote::CastVote;
use crate::state::delegation_record::DelegationRecord;
use crate::state::governance_config::GovernanceConfig;
use crate::state::pubkey::Pubkey;
use crate::state::vote_deposit::VoteDeposit;
use crate::state::vote_record::VoteChoice;

verus! {

/// The records that a deposit reads and changes.
#[derive(Clone, Copy, Debug)]
pub struct DepositTokens {
    pub governance_config: GovernanceConfig,
    /// The depositor's stake; all zero before their first deposit
    pub vote_deposit: VoteDeposit,
    /// Who deposits
    pub depositor: Pubkey,
    /// Bump of the stake's address
    pub vote_deposit_bump: u8,
}

impl DepositTokens {
    /// Whether this deposit starts the stake's timelock: the stake has no
    /// deposit time yet.
    pub open spec fn first_deposit(self) -> bool {
        self.vote_deposit.deposit_timestamp == 0
    }

    /// Why `amount` is not deposited at the time `now`, or `None` if it is.
    /// The amount must be positive; the stake, the end of a timelock that
    /// starts now, and the total of all stakes must each fit their field.
    pub open spec fn spec_error(self, amount: u64, now: i64) -> Option<GovernanceError> {
        if amount == 0 {
            Some(GovernanceError::InsufficientDeposit)
        } else if self.vote_deposit.deposited_amount + amount > u64::MAX {
            Some(GovernanceError::Overflow)
        } else if self.first_deposit() && now + self.governance_config.deposit_timelock > i64::MAX {
            Some(GovernanceError::Overflow)
        } else if self.first_deposit() && now + self.governance_config.deposit_timelock < i64::MIN {
            Some(GovernanceError::Overflow)
        } else if self.governance_config.total_deposited + amount > u64::MAX {
            Some(GovernanceError::Overflow)
        } else {
            None
        }
    }

    /// The stake after `amount` is added at the time `now`. A first deposit
    /// sets the deposit time to `now` and makes the stake eligible one
    /// timelock later; a later deposit leaves both as they are.
    pub open spec fn spec_deposit(self, amount: u64, now: i64) -> VoteDeposit {
        VoteDeposit {
            authority: self.depositor,
            bump: self.vote_deposit_bump,
            deposited_amount: (self.vote_deposit.deposited_amount + amount) as u64,
            deposit_timestamp: if self.first_deposit() {
                now
            } else {
                self.vote_deposit.deposit_timestamp
            },
            eligible_at: if self.first_deposit() {
                (now + self.governance_config.deposit_timelock) as i64
            } else {
                self.vote_deposit.eligible_at
            },
            active_votes: self.vote_deposit.active_votes,
        }
    }

    /// The records after the deposit.
    pub open spec fn spec_after(self, amount: u64, now: i64) -> DepositTokens {
        DepositTokens {
            governance_config: GovernanceConfig {
                total_deposited: (self.governance_config.total_deposited + amount) as u64,
                ..self.governance_config
            },
            vote_deposit: self.spec_deposit(amount, now),
            ..self
        }
    }
}

/// Adds `amount` tokens to the depositor's stake at the time `now`, and to
/// the total of all stakes.
pub fn handler(ctx: &mut DepositTokens, amount: u64, now: i64) -> (r: Result<(), GovernanceError>)
    ensures
        match r {
            Ok(()) => old(ctx).spec_error(amount, now) is None && *final(ctx) == old(
                ctx,
            ).spec_after(amount, now),
            Err(e) => old(ctx).spec_error(amount, now) == Some(e) && *final(ctx) == *old(ctx),
        },
{
    if amount == 0 {
        return Err(GovernanceError::InsufficientDeposit);
    }
    let deposited_amount = match ctx.vote_deposit.deposited_amount.checked_add(amount) {
        Some(a) => a,
        None => {
            return Err(GovernanceError::Overflow);
        },
    };
    let mut deposit_timestamp = ctx.vote_deposit.deposit_timestamp;
    let mut eligible_at = ctx.vote_deposit.eligible_at;
    if ctx.vote_deposit.deposit_timestamp == 0 {
        deposit_timestamp = now;
        eligible_at = match now.checked_add(ctx.governance_config.deposit_timelock) {
            Some(t) => t,
            None => {
                return Err(GovernanceError::Overflow);
            },
        };
    }
    let total_deposited = match ctx.governance_config.total_deposited.checked_add(amount) {
        Some(t) => t,
        None => {
            return Err(GovernanceError::Overflow);
        },
    };
    ctx.vote_deposit.deposited_amount = deposited_amount;
    ctx.vote_deposit.deposit_timestamp = deposit_timestamp;
    ctx.vote_deposit.eligible_at = eligible_at;
    ctx.vote_deposit.bump = ctx.vote_deposit_bump;
    ctx.vote_deposit.authority = ctx.depositor;
    ctx.governance_config.total_deposited = total_deposited;
    Ok(())
}

/// The timelock gates voting. After a first deposit at the time `t` under the
/// timelock `L`, a vote with that stake before `t + L` is turned down, and at
/// `t + L` or later the timelock no longer stands in its way.
pub proof fn lemma_timelock_gates_voting(
    deposit: DepositTokens,
    amount: u64,
    t: i64,
    vote_ctx: CastVote,
    candidates: Seq<DelegationRecord>,
    vote: VoteChoice,
    now: i64,
)
    requires
        deposit.first_deposit(),
        deposit.spec_error(amount, t) is None,
        vote_ctx.vote_deposit == deposit.spec_after(amount, t).vote_deposit,
    ensures
        vote_ctx.vote_deposit.eligible_at == t + deposit.governance_config.deposit_timelock,
        now < t + deposit.governance_config.deposit_timelock ==> vote_ctx.spec_error(
            candidates,
            vote,
            now,
        ) is Some,
        now >= t + deposit.governance_config.deposit_timelock ==> vote_ctx.vote_deposit.eligible(
            now,
        ) && vote_ctx.spec_error(candidates, vote, now) != Some(
            GovernanceError::TokensNotYetEligible,
        ),
{
}

} // verus!
