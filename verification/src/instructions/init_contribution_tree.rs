use vstd::prelude::*;

use crate::cpi::compression::{
    init_empty_merkle_tree, spec_anchor_discriminator, tree_accounts, Instruction,
    ACCOUNT_COMPRESSION_PROGRAM_ID,
};
use crate::state::merkle_tree::ContributionTreeConfig;
use crate::state::pubkey::Pubkey;

verus! {

/// The parties that a new contribution tree names.
#[derive(Clone, Copy, Debug)]
pub struct InitContributionTree {
    /// Address of the Merkle tree, set aside beforehand
    pub merkle_tree: Pubkey,
    /// Who creates the tree and may append to it
    pub authority: Pubkey,
    /// Address of the no-op program
    pub noop_program: Pubkey,
    /// Bump of the tree configuration's address
    pub tree_config_bump: u8,
}

impl InitContributionTree {
    /// The configuration of the new tree: no contributions yet.
    pub open spec fn spec_config(self, now: i64) -> ContributionTreeConfig {
        ContributionTreeConfig {
            authority: self.authority,
            merkle_tree: self.merkle_tree,
            total_contributions: 0,
            bump: self.tree_config_bump,
            created_at: now,
        }
    }
}

/// Sets up a contribution tree at the time `now`: returns the call that makes
/// the empty Merkle tree, which the caller sends, and the tree's
/// configuration.
pub fn handler(ctx: &InitContributionTree, max_depth: u32, max_buffer_size: u32, now: i64) -> (r: (
    Instruction,
    ContributionTreeConfig,
))
    ensures
        r.0.program_id@ == ACCOUNT_COMPRESSION_PROGRAM_ID@,
        r.0.accounts@ == tree_accounts(ctx.merkle_tree, ctx.authority, ctx.noop_program),
        r.0.data@ == spec_anchor_discriminator("init_empty_merkle_tree"@)
            + vstd::bytes::spec_u32_to_le_bytes(max_depth) + vstd::bytes::spec_u32_to_le_bytes(
            max_buffer_size,
        ),
        r.1 == ctx.spec_config(now),
{
    let ix = init_empty_merkle_tree(
        ctx.merkle_tree,
        ctx.authority,
        ctx.noop_program,
        max_depth,
        max_buffer_size,
    );
    let config = ContributionTreeConfig {
        authority: ctx.authority,
        merkle_tree: ctx.merkle_tree,
        total_contributions: 0,
        bump: ctx.tree_config_bump,
        created_at: now,
    };
    (ix, config)
}

} // verus!
