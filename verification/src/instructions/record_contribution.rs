use vstd::prelude::*;

use crate::cpi::compression::{
    append_leaf, spec_anchor_discriminator, tree_accounts, Instruction,
    ACCOUNT_COMPRESSION_PROGRAM_ID, NOOP_PROGRAM_ID,
};
use crate::cpi::noop::wrap_application_data;
use crate::errors::GsdHubError;
use crate::hash::sha256;
use crate::state::contribution::ContributionLeaf;
use crate::state::merkle_tree::ContributionTreeConfig;
use crate::state::pubkey::Pubkey;

verus! {

/// Greatest verification score: 100.00%, in hundredths of a percent.
pub const MAX_VERIFICATION_SCORE: u16 = 10_000;

/// The records that the recording of a contribution reads and changes.
#[derive(Clone, Copy, Debug)]
pub struct RecordContribution {
    pub tree_config: ContributionTreeConfig,
    /// Address of the Merkle tree
    pub merkle_tree: Pubkey,
    /// Who records the contribution
    pub authority: Pubkey,
    /// Address of the no-op program
    pub noop_program: Pubkey,
}

/// What recording a contribution hands back: the leaf, and the two calls that
/// the caller sends, in this order.
pub struct RecordedContribution {
    pub leaf: ContributionLeaf,
    /// Logs the leaf's bytes for indexers
    pub log_call: Instruction,
    /// Appends the leaf's digest to the Merkle tree
    pub append_call: Instruction,
}

impl RecordContribution {
    /// Why the contribution is not recorded, or `None` if it is. Only the
    /// tree's authority may record; the score must not exceed 100.00%; the
    /// tree's counter must have room.
    pub open spec fn spec_error(self, verification_score: u16) -> Option<GsdHubError> {
        if self.tree_config.authority != self.authority {
            Some(GsdHubError::InvalidTreeAuthority)
        } else if verification_score > MAX_VERIFICATION_SCORE {
            Some(GsdHubError::InvalidVerificationScore)
        } else if self.tree_config.total_contributions == u64::MAX {
            Some(GsdHubError::ScoreOverflow)
        } else {
            None
        }
    }
}

/// Records a contribution at the time `now`: makes its leaf and the calls
/// that log it and append it to the tree, and counts it.
pub fn handler(
    ctx: &mut RecordContribution,
    developer: Pubkey,
    task_ref: [u8; 32],
    verification_score: u16,
    content_hash: [u8; 32],
    now: i64,
) -> (r: Result<RecordedContribution, GsdHubError>)
    ensures
        match r {
            Ok(recorded) => {
                &&& old(ctx).spec_error(verification_score) is None
                &&& recorded.leaf == (ContributionLeaf {
                    developer,
                    task_ref,
                    verification_score,
                    timestamp: now,
                    content_hash,
                })
                &&& recorded.log_call.program_id@ == NOOP_PROGRAM_ID@
                &&& recorded.log_call.accounts@.len() == 0
                &&& recorded.log_call.data@ == recorded.leaf.spec_to_bytes()
                &&& recorded.append_call.program_id@ == ACCOUNT_COMPRESSION_PROGRAM_ID@
                &&& recorded.append_call.accounts@ == tree_accounts(
                    old(ctx).merkle_tree,
                    old(ctx).authority,
                    old(ctx).noop_program,
                )
                &&& recorded.append_call.data@ == spec_anchor_discriminator("append"@) + sha256(
                    recorded.leaf.spec_to_bytes(),
                )
                &&& *final(ctx) == (RecordContribution {
                    tree_config: ContributionTreeConfig {
                        total_contributions: (old(ctx).tree_config.total_contributions + 1) as u64,
                        ..old(ctx).tree_config
                    },
                    ..*old(ctx)
                })
            },
            Err(e) => old(ctx).spec_error(verification_score) == Some(e) && *final(ctx) == *old(
                ctx,
            ),
        },
{
    if ctx.tree_config.authority != ctx.authority {
        return Err(GsdHubError::InvalidTreeAuthority);
    }
    if verification_score > MAX_VERIFICATION_SCORE {
        return Err(GsdHubError::InvalidVerificationScore);
    }
    let total_contributions = match ctx.tree_config.total_contributions.checked_add(1) {
        Some(t) => t,
        None => {
            return Err(GsdHubError::ScoreOverflow);
        },
    };
    let leaf = ContributionLeaf {
        developer,
        task_ref,
        verification_score,
        timestamp: now,
        content_hash,
    };
    let log_call = wrap_application_data(leaf.to_bytes());
    let append_call = append_leaf(
        ctx.merkle_tree,
        ctx.authority,
        ctx.noop_program,
        leaf.to_leaf_hash(),
    );
    ctx.tree_config.total_contributions = total_contributions;
    Ok(RecordedContribution { leaf, log_call, append_call })
}

} // verus!
