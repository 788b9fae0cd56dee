use vstd::prelude::*;

use crate::errors::VerificationError;
use crate::state::pubkey::Pubkey;
use crate::state::verification_config::VerificationConfig;
use crate::state::verification_report::{VerificationReport, VerificationStatus, VerificationType};

verus! {

/// Greatest score and greatest confidence: 100.00%, in hundredths of a
/// percent.
pub const MAX_SCORE: u16 = 10_000;

/// The records that the submission of a verification reads.
#[derive(Clone, Copy, Debug)]
pub struct SubmitVerification {
    /// Who submits the verification
    pub authority: Pubkey,
    /// Whose work was verified
    pub developer: Pubkey,
    pub verification_config: VerificationConfig,
    /// Bump of the new record's address
    pub verification_report_bump: u8,
}

impl VerificationConfig {
    /// The status of a new verification. An automatic verification is
    /// complete if its confidence reaches the threshold, and else waits for
    /// peers; a verification by peers is complete.
    pub open spec fn initial_status(self, verification_type: VerificationType, confidence: u16) -> VerificationStatus {
        match verification_type {
            VerificationType::Ai => if confidence >= self.confidence_threshold {
                VerificationStatus::Completed
            } else {
                VerificationStatus::Pending
            },
            VerificationType::Peer => VerificationStatus::Completed,
        }
    }
}

/// Why a verification with this score and confidence is turned down, or
/// `None` if it is taken: neither may exceed 100.00%.
pub open spec fn verification_error(score: u16, confidence: u16) -> Option<VerificationError> {
    if score > MAX_SCORE {
        Some(VerificationError::InvalidVerificationScore)
    } else if confidence > MAX_SCORE {
        Some(VerificationError::InvalidConfidence)
    } else {
        None
    }
}

/// Submits the verification of a developer's work at the time `now` and
/// returns its record.
pub fn handler(
    ctx: &SubmitVerification,
    task_ref: [u8; 32],
    verification_type: VerificationType,
    score: u16,
    confidence: u16,
    report_hash: [u8; 32],
    now: i64,
) -> (r: Result<VerificationReport, VerificationError>)
    ensures
        match r {
            Ok(record) => {
                &&& verification_error(score, confidence) is None
                &&& record == (VerificationReport {
                    developer: ctx.developer,
                    task_ref,
                    bump: ctx.verification_report_bump,
                    verification_type,
                    status: ctx.verification_config.initial_status(verification_type, confidence),
                    score,
                    confidence,
                    report_hash,
                    verified_at: now,
                    reviewer_count: 0,
                    config_version: ctx.verification_config.version,
                })
            },
            Err(e) => verification_error(score, confidence) == Some(e),
        },
{
    if score > MAX_SCORE {
        return Err(VerificationError::InvalidVerificationScore);
    }
    if confidence > MAX_SCORE {
        return Err(VerificationError::InvalidConfidence);
    }
    let status = match verification_type {
        VerificationType::Ai => {
            if confidence >= ctx.verification_config.confidence_threshold {
                VerificationStatus::Completed
            } else {
                VerificationStatus::Pending
            }
        },
        VerificationType::Peer => VerificationStatus::Completed,
    };
    Ok(
        VerificationReport {
            developer: ctx.developer,
            task_ref,
            bump: ctx.verification_report_bump,
            verification_type,
            status,
            score,
            confidence,
            report_hash,
            verified_at: now,
            reviewer_count: 0,
            config_version: ctx.verification_config.version,
        },
    )
}

} // verus!
