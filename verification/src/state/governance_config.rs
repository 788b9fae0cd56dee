use vstd::prelude::*;

use crate::state::pubkey::Pubkey;

verus! {

/// Global governance parameters: one record for the whole program.
#[derive(Clone, Copy, Debug)]
pub struct GovernanceConfig {
    /// Admin authority who can create rounds and manage governance (32 bytes)
    pub admin: Pubkey,
    /// Authority allowed to veto approved ideas (32 bytes)
    pub veto_authority: Pubkey,
    /// SPL token mint used for governance voting (32 bytes)
    pub governance_token_mint: Pubkey,
    /// Canonical PDA bump (1 byte)
    pub bump: u8,
    /// Total rounds created (4 bytes)
    pub round_count: u32,
    /// Total tokens currently deposited across all vote deposits (8 bytes)
    pub total_deposited: u64,
    /// Seconds tokens must be deposited before voting eligibility, default 7 days (8 bytes)
    pub deposit_timelock: i64,
    /// Seconds after approval before idea can be executed, default 48 hours (8 bytes)
    pub execution_timelock: i64,
    /// Whether vote weight is the integer square root of the voting power (1 byte)
    pub quadratic_voting_enabled: bool,
    /// Identity network whose passes are accepted as proof of personhood (32 bytes)
    pub civic_gatekeeper_network: Pubkey,
    /// Half-life of contribution decay, in days (2 bytes)
    pub decay_half_life_days: u16,
}

} // verus!
