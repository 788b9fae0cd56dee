use vstd::prelude::*;

use crate::errors::GovernanceError;
use crate::instructions::relinquish_vote::RelinquishVote;
use crate::state::governance_config::GovernanceConfig;
use crate::state::pubkey::Pubkey;
use crate::state::vote_deposit::VoteDeposit;

verus! {

/// The records that a withdrawal reads and changes.
#[derive(Clone, Copy, Debug)]
pub struct WithdrawTokens {
    pub governance_config: GovernanceConfig,
    /// The depositor's stake
    pub vote_deposit: VoteDeposit,
    /// Who withdraws
    pub depositor: Pubkey,
}

impl WithdrawTokens {
    /// Why `amount` is not withdrawn, or `None` if it is. A stake with active
    /// votes is locked; the amount must not exceed the stake, nor the total
    /// of all stakes.
    pub open spec fn spec_error(self, amount: u64) -> Option<GovernanceError> {
        if self.vote_deposit.active_votes != 0 {
            Some(GovernanceError::ActiveVotesExist)
        } else if amount > self.vote_deposit.deposited_amount {
            Some(GovernanceError::InsufficientDeposit)
        } else if amount > self.governance_config.total_deposited {
            Some(GovernanceError::Overflow)
        } else {
            None
        }
    }

    /// The stake after `amount` is taken out. A stake that is emptied forgets
    /// its deposit time and its timelock, so that a later deposit starts a
    /// new timelock.
    pub open spec fn spec_withdrawn(self, amount: u64) -> VoteDeposit {
        if amount == self.vote_deposit.deposited_amount {
            VoteDeposit {
                deposited_amount: 0,
                deposit_timestamp: 0,
                eligible_at: 0,
                ..self.vote_deposit
            }
        } else {
            VoteDeposit {
                deposited_amount: (self.vote_deposit.deposited_amount - amount) as u64,
                ..self.vote_deposit
            }
        }
    }

    /// The records after the withdrawal.
    pub open spec fn spec_after(self, amount: u64) -> WithdrawTokens {
        WithdrawTokens {
            governance_config: GovernanceConfig {
                total_deposited: (self.governance_config.total_deposited - amount) as u64,
                ..self.governance_config
            },
            vote_deposit: self.spec_withdrawn(amount),
            ..self
        }
    }
}

/// Takes `amount` tokens out of the depositor's stake, and out of the total
/// of all stakes.
pub fn handler(ctx: &mut WithdrawTokens, amount: u64) -> (r: Result<(), GovernanceError>)
    ensures
        match r {
            Ok(()) => old(ctx).spec_error(amount) is None && *final(ctx) == old(ctx).spec_after(
                amount,
            ),
            Err(e) => old(ctx).spec_error(amount) == Some(e) && *final(ctx) == *old(ctx),
        },
        old(ctx).vote_deposit.active_votes > 0 ==> r is Err,
{
    if ctx.vote_deposit.active_votes != 0 {
        return Err(GovernanceError::ActiveVotesExist);
    }
    if amount > ctx.vote_deposit.deposited_amount {
        return Err(GovernanceError::InsufficientDeposit);
    }
    let deposited_amount = match ctx.vote_deposit.deposited_amount.checked_sub(amount) {
        Some(a) => a,
        None => {
            return Err(GovernanceError::Overflow);
        },
    };
    let total_deposited = match ctx.governance_config.total_deposited.checked_sub(amount) {
        Some(t) => t,
        None => {
            return Err(GovernanceError::Overflow);
        },
    };
    ctx.vote_deposit.deposited_amount = deposited_amount;
    if deposited_amount == 0 {
        ctx.vote_deposit.deposit_timestamp = 0;
        ctx.vote_deposit.eligible_at = 0;
    }
    ctx.governance_config.total_deposited = total_deposited;
    Ok(())
}

/// A stake without active votes can be withdrawn in full, as long as the
/// total of all stakes covers it; the stake then forgets its timelock.
pub proof fn lemma_full_withdrawal(ctx: WithdrawTokens)
    requires
        ctx.vote_deposit.active_votes == 0,
        ctx.vote_deposit.deposited_amount <= ctx.governance_config.total_deposited,
    ensures
        ctx.spec_error(ctx.vote_deposit.deposited_amount) is None,
        ctx.spec_after(ctx.vote_deposit.deposited_amount).vote_deposit.deposited_amount == 0,
        ctx.spec_after(ctx.vote_deposit.deposited_amount).vote_deposit.deposit_timestamp == 0,
        ctx.spec_after(ctx.vote_deposit.deposited_amount).vote_deposit.eligible_at == 0,
{
}

/// A stake with an active vote cannot be withdrawn, whatever the amount.
pub proof fn lemma_active_votes_block_withdrawal(ctx: WithdrawTokens, amount: u64)
    requires
        ctx.vote_deposit.active_votes > 0,
    ensures
        ctx.spec_error(amount) == Some(GovernanceError::ActiveVotesExist),
{
}

/// Once the last active vote of a stake is released in a closed round, the
/// stake is free: the release is taken, and the stake that it leaves can be
/// withdrawn in full.
pub proof fn lemma_release_frees_stake(release: RelinquishVote, withdrawal: WithdrawTokens)
    requires
        release.round.status == crate::state::idea_round::RoundStatus::Closed,
        release.vote_deposit.active_votes == 1,
        withdrawal.vote_deposit == (crate::state::vote_deposit::VoteDeposit {
            active_votes: 0,
            ..release.vote_deposit
        }),
        withdrawal.vote_deposit.deposited_amount <= withdrawal.governance_config.total_deposited,
    ensures
        release.spec_error() is None,
        withdrawal.spec_error(withdrawal.vote_deposit.deposited_amount) is None,
{
}

} // verus!
