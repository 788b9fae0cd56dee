use vstd::prelude::*;

use crate::state::governance_config::GovernanceConfig;
use crate::state::pubkey::Pubkey;

verus! {

/// Seconds that a stake waits before it may vote, where none is given: 7 days.
pub const DEFAULT_DEPOSIT_TIMELOCK: i64 = 604_800;

/// Seconds between an idea's approval and its execution, where none is given:
/// 48 hours.
pub const DEFAULT_EXECUTION_TIMELOCK: i64 = 172_800;

/// Half-life of contribution decay in days, as a new configuration has it.
pub const DEFAULT_DECAY_HALF_LIFE_DAYS: u16 = 180;

/// The parties that a new configuration names.
#[derive(Clone, Copy, Debug)]
pub struct InitGovernanceConfig {
    /// Who creates the configuration and becomes its admin
    pub admin: Pubkey,
    /// Address of the mint of the governance token
    pub governance_token_mint: Pubkey,
    /// Who may veto ideas
    pub veto_authority: Pubkey,
    /// Bump of the configuration's address
    pub governance_config_bump: u8,
}

/// `timelock`, or `default` where `timelock` is zero.
pub open spec fn timelock_or(timelock: i64, default: i64) -> i64 {
    if timelock == 0 {
        default
    } else {
        timelock
    }
}

impl InitGovernanceConfig {
    /// The new configuration: no rounds, no stakes, the given timelocks or
    /// their defaults, quadratic voting off, no identity network.
    pub open spec fn spec_config(self, deposit_timelock: i64, execution_timelock: i64) -> GovernanceConfig {
        GovernanceConfig {
            admin: self.admin,
            veto_authority: self.veto_authority,
            governance_token_mint: self.governance_token_mint,
            bump: self.governance_config_bump,
            round_count: 0,
            total_deposited: 0,
            deposit_timelock: timelock_or(deposit_timelock, DEFAULT_DEPOSIT_TIMELOCK),
            execution_timelock: timelock_or(execution_timelock, DEFAULT_EXECUTION_TIMELOCK),
            quadratic_voting_enabled: false,
            civic_gatekeeper_network: Pubkey::spec_from_seq(Seq::new(32, |i: int| 0u8)),
            decay_half_life_days: DEFAULT_DECAY_HALF_LIFE_DAYS,
        }
    }
}

/// Makes the governance configuration. A timelock of zero stands for its
/// default.
pub fn handler(ctx: &InitGovernanceConfig, deposit_timelock: i64, execution_timelock: i64) -> (config:
    GovernanceConfig)
    ensures
        config == ctx.spec_config(deposit_timelock, execution_timelock),
{
    let network = Pubkey::default();
    proof {
        Pubkey::lemma_from_seq(network);
    }
    GovernanceConfig {
        admin: ctx.admin,
        veto_authority: ctx.veto_authority,
        governance_token_mint: ctx.governance_token_mint,
        bump: ctx.governance_config_bump,
        round_count: 0,
        total_deposited: 0,
        deposit_timelock: if deposit_timelock == 0 {
            DEFAULT_DEPOSIT_TIMELOCK
        } else {
            deposit_timelock
        },
        execution_timelock: if execution_timelock == 0 {
            DEFAULT_EXECUTION_TIMELOCK
        } else {
            execution_timelock
        },
        quadratic_voting_enabled: false,
        civic_gatekeeper_network: network,
        decay_half_life_days: DEFAULT_DECAY_HALF_LIFE_DAYS,
    }
}

} // verus!
