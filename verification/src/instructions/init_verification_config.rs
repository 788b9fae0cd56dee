use vstd::prelude::*;

use crate::errors::VerificationError;
use crate::state::pubkey::Pubkey;
use crate::state::verification_config::VerificationConfig;

verus! {

/// The parties that a new verification configuration names.
#[derive(Clone, Copy, Debug)]
pub struct InitVerificationConfig {
    /// Who creates the configuration and becomes its admin
    pub admin: Pubkey,
    /// Bump of the configuration's address
    pub verification_config_bump: u8,
}

/// The sum of the five weights of a verification score, in basis points.
pub open spec fn weights_sum(
    code_quality_weight: u16,
    task_fulfillment_weight: u16,
    test_coverage_weight: u16,
    workflow_discipline_weight: u16,
    plan_adherence_weight: u16,
) -> int {
    code_quality_weight + task_fulfillment_weight + test_coverage_weight
        + workflow_discipline_weight + plan_adherence_weight
}

/// Makes the verification configuration, in its first version. The five
/// weights must make up the whole: 10000 basis points.
pub fn handler(
    ctx: &InitVerificationConfig,
    confidence_threshold: u16,
    code_quality_weight: u16,
    task_fulfillment_weight: u16,
    test_coverage_weight: u16,
    workflow_discipline_weight: u16,
    plan_adherence_weight: u16,
    min_reviewers: u8,
    consensus_threshold_bps: u16,
    review_timeout_days: u8,
) -> (r: Result<VerificationConfig, VerificationError>)
    ensures
        match r {
            Ok(config) => {
                &&& weights_sum(
                    code_quality_weight,
                    task_fulfillment_weight,
                    test_coverage_weight,
                    workflow_discipline_weight,
                    plan_adherence_weight,
                ) == 10000
                &&& config == (VerificationConfig {
                    admin: ctx.admin,
                    bump: ctx.verification_config_bump,
                    version: 1,
                    confidence_threshold,
                    code_quality_weight,
                    task_fulfillment_weight,
                    test_coverage_weight,
                    workflow_discipline_weight,
                    plan_adherence_weight,
                    min_reviewers,
                    consensus_threshold_bps,
                    review_timeout_days,
                })
            },
            Err(e) => {
                &&& weights_sum(
                    code_quality_weight,
                    task_fulfillment_weight,
                    test_coverage_weight,
                    workflow_discipline_weight,
                    plan_adherence_weight,
                ) != 10000
                &&& e == VerificationError::WeightsMustSumTo10000
            },
        },
{
    let total_weights: u32 = code_quality_weight as u32 + task_fulfillment_weight as u32
        + test_coverage_weight as u32 + workflow_discipline_weight as u32
        + plan_adherence_weight as u32;
    if total_weights != 10000 {
        return Err(VerificationError::WeightsMustSumTo10000);
    }
    Ok(
        VerificationConfig {
            admin: ctx.admin,
            bump: ctx.verification_config_bump,
            version: 1,
            confidence_threshold,
            code_quality_weight,
            task_fulfillment_weight,
            test_coverage_weight,
            workflow_discipline_weight,
            plan_adherence_weight,
            min_reviewers,
            consensus_threshold_bps,
            review_timeout_days,
        },
    )
}

} // verus!
