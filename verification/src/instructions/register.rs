use vstd::prelude::*;

use crate::state::developer::DeveloperProfile;
use crate::state::pubkey::Pubkey;

verus! {

/// The parties that a new developer profile names.
#[derive(Clone, Copy, Debug)]
pub struct RegisterDeveloper {
    /// Who registers, and owns the profile
    pub authority: Pubkey,
    /// Bump of the profile's address
    pub developer_profile_bump: u8,
}

impl RegisterDeveloper {
    /// The new profile: created and updated at `now`, with no contribution
    /// counted yet.
    pub open spec fn spec_profile(self, profile_hash: [u8; 32], now: i64) -> DeveloperProfile {
        DeveloperProfile {
            authority: self.authority,
            bump: self.developer_profile_bump,
            created_at: now,
            updated_at: now,
            profile_hash,
            tasks_completed: 0,
            total_verification_score: 0,
            time_active_days: 0,
            contribution_score: 0,
            first_contribution_at: 0,
            last_contribution_at: 0,
            score_version: 0,
        }
    }
}

/// Makes the profile of a developer who registers at the time `now`.
pub fn handler(ctx: &RegisterDeveloper, profile_hash: [u8; 32], now: i64) -> (profile:
    DeveloperProfile)
    ensures
        profile == ctx.spec_profile(profile_hash, now),
{
    DeveloperProfile {
        authority: ctx.authority,
        bump: ctx.developer_profile_bump,
        created_at: now,
        updated_at: now,
        profile_hash,
        tasks_completed: 0,
        total_verification_score: 0,
        time_active_days: 0,
        contribution_score: 0,
        first_contribution_at: 0,
        last_contribution_at: 0,
        score_version: 0,
    }
}

} // verus!
