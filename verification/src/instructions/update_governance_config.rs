use vstd::prelude::*;

use crate::errors::GovernanceError;
use crate::state::governance_config::GovernanceConfig;
use crate::state::pubkey::Pubkey;

verus! {

/// The records that a change of the configuration reads and changes.
#[derive(Clone, Copy, Debug)]
pub struct UpdateGovernanceConfig {
    pub governance_config: GovernanceConfig,
    /// Who asks for the change
    pub admin: Pubkey,
}

/// Sets the quadratic-voting switch, the identity network and the decay
/// half-life. Only the admin may do so.
pub fn handler(
    ctx: &mut UpdateGovernanceConfig,
    quadratic_voting_enabled: bool,
    civic_gatekeeper_network: Pubkey,
    decay_half_life_days: u16,
) -> (r: Result<(), GovernanceError>)
    ensures
        match r {
            Ok(()) => {
                &&& old(ctx).admin == old(ctx).governance_config.admin
                &&& *final(ctx) == (UpdateGovernanceConfig {
                    governance_config: GovernanceConfig {
                        quadratic_voting_enabled,
                        civic_gatekeeper_network,
                        decay_half_life_days,
                        ..old(ctx).governance_config
                    },
                    ..*old(ctx)
                })
            },
            Err(e) => {
                &&& old(ctx).admin != old(ctx).governance_config.admin
                &&& e == GovernanceError::UnauthorizedAdmin
                &&& *final(ctx) == *old(ctx)
            },
        },
{
    if ctx.governance_config.admin != ctx.admin {
        return Err(GovernanceError::UnauthorizedAdmin);
    }
    ctx.governance_config.quadratic_voting_enabled = quadratic_voting_enabled;
    ctx.governance_config.civic_gatekeeper_network = civic_gatekeeper_network;
    ctx.governance_config.decay_half_life_days = decay_half_life_days;
    Ok(())
}

} // verus!
