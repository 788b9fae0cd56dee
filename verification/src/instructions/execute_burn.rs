use vstd::prelude::*;

use crate::errors::RevenueError;
use crate::state::pubkey::Pubkey;
use crate::state::revenue_config::RevenueConfig;
use crate::state::revenue_event::{RevenueEvent, RevenueStatus};

verus! {

/// The records that the recording of a burn reads and changes.
#[derive(Clone, Copy, Debug)]
pub struct ExecuteBurn {
    pub revenue_event: RevenueEvent,
    /// Who burns
    pub burn_authority: Pubkey,
    pub revenue_config: RevenueConfig,
}

impl RevenueEvent {
    /// Whether the event's burn is still to come: its burn signature is all
    /// zero.
    pub open spec fn burn_pending(self) -> bool {
        forall|i: int| 0 <= i < 64 ==> self.burn_signature@[i] == 0
    }
}

impl ExecuteBurn {
    /// Why the burn is not recorded, or `None` if it is. Only the admin may
    /// burn, and only once per event.
    pub open spec fn spec_error(self) -> Option<RevenueError> {
        if self.burn_authority != self.revenue_config.admin {
            Some(RevenueError::UnauthorizedBurnAuthority)
        } else if !self.revenue_event.burn_pending() {
            Some(RevenueError::BurnAlreadyExecuted)
        } else {
            None
        }
    }
}

/// Records the burn of `gsd_amount` tokens under the transaction signature
/// `burn_tx_signature` and completes the event. The caller burns the tokens.
pub fn handler(ctx: &mut ExecuteBurn, gsd_amount: u64, burn_tx_signature: [u8; 64]) -> (r: Result<
    (),
    RevenueError,
>)
    ensures
        match r {
            Ok(()) => {
                &&& old(ctx).spec_error() is None
                &&& *final(ctx) == (ExecuteBurn {
                    revenue_event: RevenueEvent {
                        burn_signature: burn_tx_signature,
                        gsd_burned: gsd_amount,
                        status: RevenueStatus::Completed,
                        ..old(ctx).revenue_event
                    },
                    ..*old(ctx)
                })
            },
            Err(e) => old(ctx).spec_error() == Some(e) && *final(ctx) == *old(ctx),
        },
{
    if ctx.burn_authority != ctx.revenue_config.admin {
        return Err(RevenueError::UnauthorizedBurnAuthority);
    }
    let mut i: usize = 0;
    while i < 64
        invariant
            i <= 64,
            *ctx == *old(ctx),
            ctx.burn_authority == ctx.revenue_config.admin,
            forall|j: int| 0 <= j < i ==> ctx.revenue_event.burn_signature@[j] == 0,
        decreases 64 - i,
    {
        if ctx.revenue_event.burn_signature[i] != 0 {
            return Err(RevenueError::BurnAlreadyExecuted);
        }
        i += 1;
    }
    ctx.revenue_event.burn_signature = burn_tx_signature;
    ctx.revenue_event.gsd_burned = gsd_amount;
    ctx.revenue_event.status = RevenueStatus::Completed;
    Ok(())
}

} // verus!
