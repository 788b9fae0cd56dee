use vstd::prelude::*;

use crate::errors::RevenueError;
use crate::state::pubkey::Pubkey;
use crate::state::revenue_config::RevenueConfig;
use crate::state::revenue_event::{RevenueEvent, RevenueStatus, RevenueToken};

verus! {

/// The records that the recording of a revenue event reads and changes.
#[derive(Clone, Copy, Debug)]
pub struct RecordRevenueEvent {
    pub revenue_config: RevenueConfig,
    /// Who records the event
    pub authority: Pubkey,
    /// Bump of the event's address
    pub revenue_event_bump: u8,
    /// Bump of the address of the vault that holds the developer pool
    pub developer_pool_vault_bump: u8,
}

/// The share of `total_amount` that `bps` basis points make, rounded down.
pub open spec fn bps_share(total_amount: u64, bps: u16) -> int {
    (total_amount * bps) / 10000
}

impl RevenueConfig {
    /// The sum of the four rounded-down shares of `total_amount`.
    pub open spec fn shares_sum(self, total_amount: u64) -> int {
        bps_share(total_amount, self.developer_bps) + bps_share(total_amount, self.treasury_bps)
            + bps_share(total_amount, self.burn_bps) + bps_share(total_amount, self.maintenance_bps)
    }

    /// Whether `total_amount` can be split: each product of the amount and a
    /// share fits 64 bits, and so does the sum of the four parts, which must
    /// not exceed the amount.
    pub open spec fn can_split(self, total_amount: u64) -> bool {
        &&& total_amount * self.developer_bps <= u64::MAX
        &&& total_amount * self.treasury_bps <= u64::MAX
        &&& total_amount * self.burn_bps <= u64::MAX
        &&& total_amount * self.maintenance_bps <= u64::MAX
        &&& self.shares_sum(total_amount) <= total_amount
    }

    /// The developer pool's part of `total_amount`: its share, and what
    /// rounding left over.
    pub open spec fn developer_pool(self, total_amount: u64) -> int {
        bps_share(total_amount, self.developer_bps) + (total_amount - self.shares_sum(total_amount))
    }
}

impl RecordRevenueEvent {
    /// Why the event is not recorded, or `None` if it is. Only the admin may
    /// record; the amount must reach the minimum; it must be splittable; the
    /// event counter must have room.
    pub open spec fn spec_error(self, total_amount: u64) -> Option<RevenueError> {
        if self.authority != self.revenue_config.admin {
            Some(RevenueError::UnauthorizedBurnAuthority)
        } else if total_amount < self.revenue_config.min_revenue_threshold {
            Some(RevenueError::BelowMinimumThreshold)
        } else if !self.revenue_config.can_split(total_amount) {
            Some(RevenueError::ClaimOverflow)
        } else if self.revenue_config.event_count == u32::MAX {
            Some(RevenueError::ClaimOverflow)
        } else {
            None
        }
    }

    /// The new event: the amount split by the configured shares, nothing
    /// claimed and nothing burned yet. `burn_signature` is the signature of
    /// the burn to come: all zero.
    pub open spec fn spec_event(
        self,
        total_amount: u64,
        token: RevenueToken,
        origin_signature: [u8; 64],
        total_contribution_score: u64,
        now: i64,
        burn_signature: [u8; 64],
    ) -> RevenueEvent {
        RevenueEvent {
            event_index: self.revenue_config.event_count,
            bump: self.revenue_event_bump,
            vault_bump: self.developer_pool_vault_bump,
            token,
            total_amount,
            developer_pool: self.revenue_config.developer_pool(total_amount) as u64,
            treasury_reserve: bps_share(total_amount, self.revenue_config.treasury_bps) as u64,
            burn_amount: bps_share(total_amount, self.revenue_config.burn_bps) as u64,
            maintenance_amount: bps_share(total_amount, self.revenue_config.maintenance_bps) as u64,
            status: RevenueStatus::Recorded,
            recorded_at: now,
            origin_signature,
            total_contribution_score,
            claimed_amount: 0,
            burn_signature,
            gsd_burned: 0,
        }
    }
}

/// `total_amount * bps / 10000`, or `None` if the product does not fit 64
/// bits.
fn checked_share(total_amount: u64, bps: u16) -> (share: Option<u64>)
    ensures
        share is Some <==> total_amount * bps <= u64::MAX,
        share is Some ==> share->0 == bps_share(total_amount, bps),
{
    match total_amount.checked_mul(bps as u64) {
        Some(product) => Some(product / 10000),
        None => None,
    }
}

/// Records a revenue event at the time `now`: splits the amount among the
/// developer pool, the treasury, the burn and maintenance, and counts the
/// event. The caller moves the developer pool's part into the vault.
pub fn handler(
    ctx: &mut RecordRevenueEvent,
    total_amount: u64,
    token: RevenueToken,
    origin_signature: [u8; 64],
    total_contribution_score: u64,
    now: i64,
) -> (r: Result<RevenueEvent, RevenueError>)
    ensures
        match r {
            Ok(event) => {
                &&& old(ctx).spec_error(total_amount) is None
                &&& event == old(ctx).spec_event(
                    total_amount,
                    token,
                    origin_signature,
                    total_contribution_score,
                    now,
                    event.burn_signature,
                )
                &&& forall|i: int| 0 <= i < 64 ==> event.burn_signature@[i] == 0
                &&& event.developer_pool + event.treasury_reserve + event.burn_amount
                    + event.maintenance_amount == total_amount
                &&& *final(ctx) == (RecordRevenueEvent {
                    revenue_config: RevenueConfig {
                        event_count: (old(ctx).revenue_config.event_count + 1) as u32,
                        ..old(ctx).revenue_config
                    },
                    ..*old(ctx)
                })
            },
            Err(e) => old(ctx).spec_error(total_amount) == Some(e) && *final(ctx) == *old(ctx),
        },
{
    if ctx.authority != ctx.revenue_config.admin {
        return Err(RevenueError::UnauthorizedBurnAuthority);
    }
    if total_amount < ctx.revenue_config.min_revenue_threshold {
        return Err(RevenueError::BelowMinimumThreshold);
    }
    let developer_share = match checked_share(total_amount, ctx.revenue_config.developer_bps) {
        Some(s) => s,
        None => {
            return Err(RevenueError::ClaimOverflow);
        },
    };
    let treasury_reserve = match checked_share(total_amount, ctx.revenue_config.treasury_bps) {
        Some(s) => s,
        None => {
            return Err(RevenueError::ClaimOverflow);
        },
    };
    let burn_amount = match checked_share(total_amount, ctx.revenue_config.burn_bps) {
        Some(s) => s,
        None => {
            return Err(RevenueError::ClaimOverflow);
        },
    };
    let maintenance_amount = match checked_share(total_amount, ctx.revenue_config.maintenance_bps) {
        Some(s) => s,
        None => {
            return Err(RevenueError::ClaimOverflow);
        },
    };
    let sum: u128 = developer_share as u128 + treasury_reserve as u128 + burn_amount as u128
        + maintenance_amount as u128;
    if sum > total_amount as u128 {
        return Err(RevenueError::ClaimOverflow);
    }
    let developer_pool: u64 = developer_share + (total_amount - sum as u64);
    let event_count = match ctx.revenue_config.event_count.checked_add(1) {
        Some(c) => c,
        None => {
            return Err(RevenueError::ClaimOverflow);
        },
    };
    let event = RevenueEvent {
        event_index: ctx.revenue_config.event_count,
        bump: ctx.revenue_event_bump,
        vault_bump: ctx.developer_pool_vault_bump,
        token,
        total_amount,
        developer_pool,
        treasury_reserve,
        burn_amount,
        maintenance_amount,
        status: RevenueStatus::Recorded,
        recorded_at: now,
        origin_signature,
        total_contribution_score,
        claimed_amount: 0,
        burn_signature: [0u8; 64],
        gsd_burned: 0,
    };
    ctx.revenue_config.event_count = event_count;
    Ok(event)
}

} // verus!
