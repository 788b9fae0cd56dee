use vstd::prelude::*;

use crate::state::pubkey::Pubkey;
use crate::state::revenue_config::RevenueConfig;

verus! {

/// Share of revenue that goes to the developer pool, in basis points.
pub const DEFAULT_DEVELOPER_BPS: u16 = 6000;

/// Share of revenue that goes to the treasury reserve, in basis points.
pub const DEFAULT_TREASURY_BPS: u16 = 2000;

/// Share of revenue that is burned, in basis points.
pub const DEFAULT_BURN_BPS: u16 = 1000;

/// Share of revenue that goes to maintenance, in basis points.
pub const DEFAULT_MAINTENANCE_BPS: u16 = 1000;

/// The parties that a new revenue configuration names.
#[derive(Clone, Copy, Debug)]
pub struct InitRevenueConfig {
    /// Who creates the configuration and becomes its admin
    pub admin: Pubkey,
    /// Bump of the configuration's address
    pub revenue_config_bump: u8,
}

impl RevenueConfig {
    /// Whether the four shares make up the whole: 10000 basis points.
    pub open spec fn valid_split(self) -> bool {
        self.developer_bps + self.treasury_bps + self.burn_bps + self.maintenance_bps == 10000
    }
}

impl InitRevenueConfig {
    /// The new configuration: the default split of 60/20/10/10, and no
    /// revenue event yet.
    pub open spec fn spec_config(
        self,
        treasury_address: Pubkey,
        maintenance_address: Pubkey,
        gsd_mint: Pubkey,
        usdc_mint: Pubkey,
        min_revenue_threshold: u64,
    ) -> RevenueConfig {
        RevenueConfig {
            admin: self.admin,
            bump: self.revenue_config_bump,
            developer_bps: DEFAULT_DEVELOPER_BPS,
            treasury_bps: DEFAULT_TREASURY_BPS,
            burn_bps: DEFAULT_BURN_BPS,
            maintenance_bps: DEFAULT_MAINTENANCE_BPS,
            treasury_address,
            maintenance_address,
            gsd_mint,
            usdc_mint,
            event_count: 0,
            min_revenue_threshold,
        }
    }
}

/// Makes the revenue configuration, with the default split.
pub fn handler(
    ctx: &InitRevenueConfig,
    treasury_address: Pubkey,
    maintenance_address: Pubkey,
    gsd_mint: Pubkey,
    usdc_mint: Pubkey,
    min_revenue_threshold: u64,
) -> (config: RevenueConfig)
    ensures
        config == ctx.spec_config(
            treasury_address,
            maintenance_address,
            gsd_mint,
            usdc_mint,
            min_revenue_threshold,
        ),
        config.valid_split(),
{
    RevenueConfig {
        admin: ctx.admin,
        bump: ctx.revenue_config_bump,
        developer_bps: DEFAULT_DEVELOPER_BPS,
        treasury_bps: DEFAULT_TREASURY_BPS,
        burn_bps: DEFAULT_BURN_BPS,
        maintenance_bps: DEFAULT_MAINTENANCE_BPS,
        treasury_address,
        maintenance_address,
        gsd_mint,
        usdc_mint,
        event_count: 0,
        min_revenue_threshold,
    }
}

} // verus!
