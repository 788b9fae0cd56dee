use vstd::prelude::*;

use crate::errors::VerificationError;
use crate::state::pubkey::Pubkey;
use crate::state::verification_config::VerificationConfig;
use crate::state::verification_report::{VerificationReport, VerificationStatus, VerificationType};

verus! {

/// The records that the closing of a verification by peers reads and changes.
#[derive(Clone, Copy, Debug)]
pub struct FinalizePeerVerification {
    /// Who closes the verification
    pub authority: Pubkey,
    pub verification_report: VerificationReport,
    pub verification_config: VerificationConfig,
}

/// Closes a verification with the peers' consensus: sets its score, its
/// confidence and its hash, and marks it as completed by peers. The
/// verification must have as many verdicts as the configuration asks for.
pub fn handler(
    ctx: &mut FinalizePeerVerification,
    final_score: u16,
    final_confidence: u16,
    peer_report_hash: [u8; 32],
) -> (r: Result<(), VerificationError>)
    ensures
        match r {
            Ok(()) => {
                &&& old(ctx).verification_report.reviewer_count >= old(
                    ctx,
                ).verification_config.min_reviewers
                &&& *final(ctx) == (FinalizePeerVerification {
                    verification_report: VerificationReport {
                        score: final_score,
                        confidence: final_confidence,
                        status: VerificationStatus::Completed,
                        verification_type: VerificationType::Peer,
                        report_hash: peer_report_hash,
                        ..old(ctx).verification_report
                    },
                    ..*old(ctx)
                })
            },
            Err(e) => {
                &&& old(ctx).verification_report.reviewer_count < old(
                    ctx,
                ).verification_config.min_reviewers
                &&& e == VerificationError::InsufficientReviewers
                &&& *final(ctx) == *old(ctx)
            },
        },
{
    if ctx.verification_report.reviewer_count < ctx.verification_config.min_reviewers {
        return Err(VerificationError::InsufficientReviewers);
    }
    ctx.verification_report.score = final_score;
    ctx.verification_report.confidence = final_confidence;
    ctx.verification_report.status = VerificationStatus::Completed;
    ctx.verification_report.verification_type = VerificationType::Peer;
    ctx.verification_report.report_hash = peer_report_hash;
    Ok(())
}

} // verus!
