use vstd::prelude::*;

use crate::state::developer::DeveloperProfile;

verus! {

/// The record that a change of the contribution score reads and changes.
#[derive(Clone, Copy, Debug)]
pub struct UpdateContributionScore {
    pub developer_profile: DeveloperProfile,
}

impl DeveloperProfile {
    /// The profile after its score is set at the time `now`. The first such
    /// change also sets the time of the first contribution.
    pub open spec fn spec_scored(
        self,
        tasks_completed: u32,
        total_verification_score: u64,
        time_active_days: u32,
        contribution_score: u64,
        score_version: u8,
        now: i64,
    ) -> DeveloperProfile {
        DeveloperProfile {
            tasks_completed,
            total_verification_score,
            time_active_days,
            contribution_score,
            score_version,
            last_contribution_at: now,
            first_contribution_at: if self.first_contribution_at == 0 {
                now
            } else {
                self.first_contribution_at
            },
            updated_at: now,
            ..self
        }
    }
}

/// Sets the contribution score of the profile, and what it was computed
/// from, at the time `now`.
pub fn handler(
    ctx: &mut UpdateContributionScore,
    tasks_completed: u32,
    total_verification_score: u64,
    time_active_days: u32,
    contribution_score: u64,
    score_version: u8,
    now: i64,
)
    ensures
        final(ctx).developer_profile == old(ctx).developer_profile.spec_scored(
            tasks_completed,
            total_verification_score,
            time_active_days,
            contribution_score,
            score_version,
            now,
        ),
{
    ctx.developer_profile.tasks_completed = tasks_completed;
    ctx.developer_profile.total_verification_score = total_verification_score;
    ctx.developer_profile.time_active_days = time_active_days;
    ctx.developer_profile.contribution_score = contribution_score;
    ctx.developer_profile.score_version = score_version;
    ctx.developer_profile.last_contribution_at = now;
    if ctx.developer_profile.first_contribution_at == 0 {
        ctx.developer_profile.first_contribution_at = now;
    }
    ctx.developer_profile.updated_at = now;
}

} // verus!
