use vstd::prelude::*;

use crate::errors::VerificationError;
use crate::instructions::submit_verification::MAX_SCORE;
use crate::state::peer_review::PeerReview;
use crate::state::pubkey::Pubkey;
use crate::state::verification_report::{VerificationReport, VerificationStatus};

verus! {

/// The records that the submission of a peer's verdict reads and changes.
#[derive(Clone, Copy, Debug)]
pub struct SubmitPeerReview {
    /// The peer who judges the work
    pub reviewer: Pubkey,
    /// The verification that the verdict is about
    pub verification_report: VerificationReport,
    /// Address of that verification
    pub verification_report_key: Pubkey,
    /// Bump of the new record's address
    pub peer_review_bump: u8,
}

impl SubmitPeerReview {
    /// Why the verdict is turned down, or `None` if it is taken. A developer
    /// does not judge their own work; the verification must be pending; the
    /// tier must be 1, 2 or 3; the score must not exceed 100.00%.
    pub open spec fn spec_error(self, tier: u8, score: u16) -> Option<VerificationError> {
        if self.reviewer == self.verification_report.developer {
            Some(VerificationError::ReviewerIsDeveloper)
        } else if self.verification_report.status != VerificationStatus::Pending {
            Some(VerificationError::VerificationAlreadyExists)
        } else if !(1 <= tier <= 3) {
            Some(VerificationError::InvalidTier)
        } else if score > MAX_SCORE {
            Some(VerificationError::InvalidVerificationScore)
        } else {
            None
        }
    }
}

/// Submits a peer's verdict on a pending verification at the time `now`,
/// returns its record and counts it in the verification. The verification's
/// counter of verdicts must have room for it.
pub fn handler(
    ctx: &mut SubmitPeerReview,
    tier: u8,
    weight: u16,
    score: u16,
    passed: bool,
    review_hash: [u8; 32],
    now: i64,
) -> (r: Result<PeerReview, VerificationError>)
    requires
        old(ctx).verification_report.reviewer_count < u8::MAX,
    ensures
        match r {
            Ok(record) => {
                &&& old(ctx).spec_error(tier, score) is None
                &&& record == (PeerReview {
                    reviewer: old(ctx).reviewer,
                    verification_report: old(ctx).verification_report_key,
                    bump: old(ctx).peer_review_bump,
                    tier,
                    weight,
                    score,
                    passed,
                    review_hash,
                    reviewed_at: now,
                })
                &&& *final(ctx) == (SubmitPeerReview {
                    verification_report: VerificationReport {
                        reviewer_count: (old(ctx).verification_report.reviewer_count + 1) as u8,
                        ..old(ctx).verification_report
                    },
                    ..*old(ctx)
                })
            },
            Err(e) => old(ctx).spec_error(tier, score) == Some(e) && *final(ctx) == *old(ctx),
        },
{
    if ctx.reviewer == ctx.verification_report.developer {
        return Err(VerificationError::ReviewerIsDeveloper);
    }
    if ctx.verification_report.status != VerificationStatus::Pending {
        return Err(VerificationError::VerificationAlreadyExists);
    }
    if !(tier >= 1 && tier <= 3) {
        return Err(VerificationError::InvalidTier);
    }
    if score > MAX_SCORE {
        return Err(VerificationError::InvalidVerificationScore);
    }
    let record = PeerReview {
        reviewer: ctx.reviewer,
        verification_report: ctx.verification_report_key,
        bump: ctx.peer_review_bump,
        tier,
        weight,
        score,
        passed,
        review_hash,
        reviewed_at: now,
    };
    ctx.verification_report.reviewer_count = ctx.verification_report.reviewer_count + 1;
    Ok(record)
}

} // verus!
