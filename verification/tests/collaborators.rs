use gsd_hub::errors::{
    GovernanceError, GsdHubError, LedgerError, RevenueError, VerificationError, ERROR_CODE_OFFSET,
};
use gsd_hub::instructions::claim_revenue_share::ClaimRevenueShare;
use gsd_hub::instructions::execute_burn::ExecuteBurn;
use gsd_hub::instructions::finalize_peer_verification::FinalizePeerVerification;
use gsd_hub::instructions::init_contribution_tree::InitContributionTree;
use gsd_hub::instructions::init_revenue_config::InitRevenueConfig;
use gsd_hub::instructions::init_verification_config::InitVerificationConfig;
use gsd_hub::instructions::record_contribution::RecordContribution;
use gsd_hub::instructions::record_revenue_event::RecordRevenueEvent;
use gsd_hub::instructions::register::RegisterDeveloper;
use gsd_hub::instructions::submit_peer_review::SubmitPeerReview;
use gsd_hub::instructions::submit_verification::SubmitVerification;
use gsd_hub::instructions::update_hash::UpdateProfileHash;
use gsd_hub::instructions::update_score::UpdateContributionScore;
use gsd_hub::instructions::{
    claim_revenue_share, execute_burn, finalize_peer_verification, init_contribution_tree,
    init_revenue_config, init_verification_config, record_contribution, record_revenue_event,
    register, submit_peer_review, submit_verification, update_hash, update_score,
};
use gsd_hub::state::developer::DeveloperProfile;
use gsd_hub::state::pubkey::Pubkey;
use gsd_hub::state::revenue_config::RevenueConfig;
use gsd_hub::state::revenue_event::{RevenueEvent, RevenueStatus, RevenueToken};
use gsd_hub::state::verification_config::VerificationConfig;
use gsd_hub::state::verification_report::{
    VerificationReport, VerificationStatus, VerificationType,
};

fn key(b: u8) -> Pubkey {
    Pubkey::new_from_array([b; 32])
}

fn profile(score: u64) -> DeveloperProfile {
    let mut p = register::handler(
        &RegisterDeveloper { authority: key(10), developer_profile_bump: 4 },
        [1; 32],
        500,
    );
    p.contribution_score = score;
    p
}

fn revenue_config() -> RevenueConfig {
    init_revenue_config::handler(
        &InitRevenueConfig { admin: key(1), revenue_config_bump: 6 },
        key(2),
        key(3),
        key(4),
        key(5),
        1_000,
    )
}

fn event(pool: u64, total_score: u64, status: RevenueStatus) -> RevenueEvent {
    RevenueEvent {
        event_index: 0,
        bump: 1,
        vault_bump: 2,
        token: RevenueToken::Sol,
        total_amount: pool,
        developer_pool: pool,
        treasury_reserve: 0,
        burn_amount: 0,
        maintenance_amount: 0,
        status,
        recorded_at: 1,
        origin_signature: [7; 64],
        total_contribution_score: total_score,
        claimed_amount: 0,
        burn_signature: [0; 64],
        gsd_burned: 0,
    }
}

fn verification_config() -> VerificationConfig {
    init_verification_config::handler(
        &InitVerificationConfig { admin: key(1), verification_config_bump: 8 },
        6000,
        2500,
        2000,
        1500,
        2500,
        1500,
        3,
        7000,
        7,
    )
    .unwrap()
}

fn pending_report(reviewer_count: u8) -> VerificationReport {
    VerificationReport {
        developer: key(10),
        task_ref: [1; 32],
        bump: 2,
        verification_type: VerificationType::Ai,
        status: VerificationStatus::Pending,
        score: 5000,
        confidence: 4000,
        report_hash: [3; 32],
        verified_at: 100,
        reviewer_count,
        config_version: 1,
    }
}

#[test]
fn error_codes_count_from_the_offset() {
    assert_eq!(ERROR_CODE_OFFSET, 6000);
    assert_eq!(GsdHubError::ProfileAlreadyExists.code(), 6000);
    assert_eq!(GsdHubError::ScoreOverflow.code(), 6007);
    assert_eq!(GovernanceError::RoundNotOpen.code(), 6000);
    assert_eq!(GovernanceError::Overflow.code(), 6009);
    assert_eq!(GovernanceError::CannotDelegateWithActiveVotes.code(), 6027);
    assert_eq!(RevenueError::InvalidSplitRatios.code(), 6000);
    assert_eq!(RevenueError::BurnAlreadyExecuted.code(), 6010);
    assert_eq!(VerificationError::InvalidVerificationScore.code(), 6000);
    assert_eq!(VerificationError::UnauthorizedVerificationAdmin.code(), 6012);
}

#[test]
fn errors_carry_their_messages() {
    assert_eq!(GovernanceError::TooEarly.message(), "Transition too early -- deadline not reached");
    assert_eq!(GovernanceError::AlreadyClosed.message(), "Round is already closed");
    assert_eq!(
        GovernanceError::TokensNotYetEligible.message(),
        "Tokens not yet eligible for voting (7-day timelock)"
    );
    assert_eq!(GsdHubError::Unauthorized.message(), "Unauthorized");
    assert_eq!(RevenueError::DivisionByZero.message(), "Total contribution score is zero");
    assert_eq!(
        VerificationError::WeightsMustSumTo10000.message(),
        "Verification weight parameters must sum to 10000 bps"
    );
    assert_ne!(
        LedgerError::Governance(GovernanceError::TooEarly),
        LedgerError::Governance(GovernanceError::AlreadyClosed)
    );
}

#[test]
fn profile_is_registered_and_updated_by_its_owner() {
    let p = profile(0);
    assert_eq!(p.authority, key(10));
    assert_eq!(p.bump, 4);
    assert_eq!((p.created_at, p.updated_at), (500, 500));
    assert_eq!(p.profile_hash, [1; 32]);
    assert_eq!((p.tasks_completed, p.contribution_score, p.score_version), (0, 0, 0));
    let mut ctx = UpdateProfileHash { developer_profile: p, authority: key(11) };
    assert_eq!(update_hash::handler(&mut ctx, [2; 32], 600), Err(GsdHubError::Unauthorized));
    assert_eq!(ctx.developer_profile.profile_hash, [1; 32]);
    ctx.authority = key(10);
    assert_eq!(update_hash::handler(&mut ctx, [2; 32], 600), Ok(()));
    assert_eq!(ctx.developer_profile.profile_hash, [2; 32]);
    assert_eq!(ctx.developer_profile.updated_at, 600);
    assert_eq!(ctx.developer_profile.created_at, 500);
}

#[test]
fn first_score_sets_the_first_contribution_time() {
    let mut ctx = UpdateContributionScore { developer_profile: profile(0) };
    update_score::handler(&mut ctx, 3, 27_000, 12, 5_000_000, 1, 700);
    let p = ctx.developer_profile;
    assert_eq!(p.tasks_completed, 3);
    assert_eq!(p.total_verification_score, 27_000);
    assert_eq!(p.time_active_days, 12);
    assert_eq!(p.contribution_score, 5_000_000);
    assert_eq!(p.score_version, 1);
    assert_eq!((p.first_contribution_at, p.last_contribution_at, p.updated_at), (700, 700, 700));
    update_score::handler(&mut ctx, 4, 30_000, 13, 6_000_000, 2, 800);
    let p = ctx.developer_profile;
    assert_eq!((p.first_contribution_at, p.last_contribution_at, p.updated_at), (700, 800, 800));
    assert_eq!(p.tasks_completed, 4);
}

#[test]
fn tree_is_set_up_empty() {
    let ctx = InitContributionTree {
        merkle_tree: key(1),
        authority: key(2),
        noop_program: key(3),
        tree_config_bump: 9,
    };
    let (ix, config) = init_contribution_tree::handler(&ctx, 14, 64, 1_000);
    assert_eq!(ix.data[8..], [14, 0, 0, 0, 64, 0, 0, 0]);
    assert_eq!(ix.accounts[0].pubkey, key(1));
    assert_eq!(config.authority, key(2));
    assert_eq!(config.merkle_tree, key(1));
    assert_eq!(config.total_contributions, 0);
    assert_eq!(config.bump, 9);
    assert_eq!(config.created_at, 1_000);
}

#[test]
fn contribution_is_logged_appended_and_counted() {
    let tree = InitContributionTree {
        merkle_tree: key(1),
        authority: key(2),
        noop_program: key(3),
        tree_config_bump: 9,
    };
    let (_, tree_config) = init_contribution_tree::handler(&tree, 14, 64, 1_000);
    let mut ctx = RecordContribution {
        tree_config,
        merkle_tree: key(1),
        authority: key(2),
        noop_program: key(3),
    };
    let recorded =
        record_contribution::handler(&mut ctx, key(10), [4; 32], 10_000, [5; 32], 2_000).unwrap();
    assert_eq!(recorded.leaf.developer, key(10));
    assert_eq!(recorded.leaf.timestamp, 2_000);
    assert_eq!(recorded.leaf.verification_score, 10_000);
    assert_eq!(recorded.log_call.data, recorded.leaf.to_bytes());
    assert_eq!(recorded.append_call.data[8..], recorded.leaf.to_leaf_hash());
    assert_eq!(recorded.append_call.accounts[1].pubkey, key(2));
    assert_eq!(ctx.tree_config.total_contributions, 1);
}

#[test]
fn contribution_is_turned_down() {
    let tree = InitContributionTree {
        merkle_tree: key(1),
        authority: key(2),
        noop_program: key(3),
        tree_config_bump: 9,
    };
    let (_, tree_config) = init_contribution_tree::handler(&tree, 14, 64, 1_000);
    let mut ctx = RecordContribution {
        tree_config,
        merkle_tree: key(1),
        authority: key(7),
        noop_program: key(3),
    };
    assert_eq!(
        record_contribution::handler(&mut ctx, key(10), [4; 32], 10_001, [5; 32], 2_000)
            .err()
            .unwrap(),
        GsdHubError::InvalidTreeAuthority
    );
    ctx.authority = key(2);
    assert_eq!(
        record_contribution::handler(&mut ctx, key(10), [4; 32], 10_001, [5; 32], 2_000)
            .err()
            .unwrap(),
        GsdHubError::InvalidVerificationScore
    );
    ctx.tree_config.total_contributions = u64::MAX;
    assert_eq!(
        record_contribution::handler(&mut ctx, key(10), [4; 32], 1, [5; 32], 2_000).err().unwrap(),
        GsdHubError::ScoreOverflow
    );
    assert_eq!(ctx.tree_config.total_contributions, u64::MAX);
}

#[test]
fn revenue_config_has_the_default_split() {
    let c = revenue_config();
    assert_eq!((c.developer_bps, c.treasury_bps, c.burn_bps, c.maintenance_bps), (6000, 2000, 1000, 1000));
    assert_eq!(c.admin, key(1));
    assert_eq!(c.bump, 6);
    assert_eq!(c.treasury_address, key(2));
    assert_eq!(c.maintenance_address, key(3));
    assert_eq!(c.gsd_mint, key(4));
    assert_eq!(c.usdc_mint, key(5));
    assert_eq!(c.event_count, 0);
    assert_eq!(c.min_revenue_threshold, 1_000);
}

#[test]
fn revenue_is_split_and_the_remainder_goes_to_developers() {
    let mut ctx = RecordRevenueEvent {
        revenue_config: revenue_config(),
        authority: key(1),
        revenue_event_bump: 3,
        developer_pool_vault_bump: 4,
    };
    let e = record_revenue_event::handler(&mut ctx, 10_007, RevenueToken::Usdc, [9; 64], 555, 42)
        .unwrap();
    assert_eq!(e.treasury_reserve, 2_001);
    assert_eq!(e.burn_amount, 1_000);
    assert_eq!(e.maintenance_amount, 1_000);
    assert_eq!(e.developer_pool, 6_006);
    assert_eq!(e.total_amount, 10_007);
    assert_eq!(e.event_index, 0);
    assert_eq!((e.bump, e.vault_bump), (3, 4));
    assert_eq!(e.token, RevenueToken::Usdc);
    assert_eq!(e.status, RevenueStatus::Recorded);
    assert_eq!(e.recorded_at, 42);
    assert_eq!(e.origin_signature, [9; 64]);
    assert_eq!(e.total_contribution_score, 555);
    assert_eq!(e.claimed_amount, 0);
    assert_eq!(e.burn_signature, [0; 64]);
    assert_eq!(e.gsd_burned, 0);
    assert_eq!(ctx.revenue_config.event_count, 1);
    let e = record_revenue_event::handler(&mut ctx, 1_000, RevenueToken::Sol, [9; 64], 555, 43)
        .unwrap();
    assert_eq!(e.event_index, 1);
    assert_eq!(
        (e.developer_pool, e.treasury_reserve, e.burn_amount, e.maintenance_amount),
        (600, 200, 100, 100)
    );
}

#[test]
fn revenue_event_is_turned_down() {
    let mut ctx = RecordRevenueEvent {
        revenue_config: revenue_config(),
        authority: key(2),
        revenue_event_bump: 3,
        developer_pool_vault_bump: 4,
    };
    assert_eq!(
        record_revenue_event::handler(&mut ctx, 999, RevenueToken::Sol, [9; 64], 1, 1).unwrap_err(),
        RevenueError::UnauthorizedBurnAuthority
    );
    ctx.authority = key(1);
    assert_eq!(
        record_revenue_event::handler(&mut ctx, 999, RevenueToken::Sol, [9; 64], 1, 1).unwrap_err(),
        RevenueError::BelowMinimumThreshold
    );
    assert_eq!(
        record_revenue_event::handler(&mut ctx, u64::MAX, RevenueToken::Sol, [9; 64], 1, 1)
            .unwrap_err(),
        RevenueError::ClaimOverflow
    );
    ctx.revenue_config.developer_bps = 10_000;
    assert_eq!(
        record_revenue_event::handler(&mut ctx, 5_000, RevenueToken::Sol, [9; 64], 1, 1)
            .unwrap_err(),
        RevenueError::ClaimOverflow
    );
    assert_eq!(ctx.revenue_config.event_count, 0);
}

#[test]
fn claim_is_in_proportion_to_the_score() {
    let mut ctx = ClaimRevenueShare {
        revenue_event: event(1_000, 3, RevenueStatus::Recorded),
        revenue_event_key: key(30),
        developer_profile: profile(1),
        claimant: key(10),
        developer_pool_vault_lamports: 1_000,
        revenue_claim_bump: 5,
    };
    let claim = claim_revenue_share::handler(&mut ctx, 77).unwrap();
    assert_eq!(claim.amount, 333);
    assert_eq!(claim.claimant, key(10));
    assert_eq!(claim.revenue_event, key(30));
    assert_eq!(claim.bump, 5);
    assert_eq!(claim.contribution_score, 1);
    assert_eq!(claim.total_score, 3);
    assert_eq!(claim.claimed_at, 77);
    assert_eq!(ctx.revenue_event.claimed_amount, 333);
    ctx.revenue_event.status = RevenueStatus::Distributing;
    ctx.developer_profile.contribution_score = 2;
    assert_eq!(claim_revenue_share::handler(&mut ctx, 78).unwrap().amount, 666);
    assert_eq!(ctx.revenue_event.claimed_amount, 999);
}

#[test]
fn large_claims_do_not_wrap() {
    let mut ctx = ClaimRevenueShare {
        revenue_event: event(u64::MAX, u64::MAX, RevenueStatus::Recorded),
        revenue_event_key: key(30),
        developer_profile: profile(u64::MAX),
        claimant: key(10),
        developer_pool_vault_lamports: u64::MAX,
        revenue_claim_bump: 5,
    };
    assert_eq!(claim_revenue_share::handler(&mut ctx, 1).unwrap().amount, u64::MAX);
    ctx.revenue_event.claimed_amount = 0;
    ctx.revenue_event.total_contribution_score = 1;
    ctx.developer_profile.contribution_score = 2;
    assert_eq!(claim_revenue_share::handler(&mut ctx, 1).unwrap_err(), RevenueError::ClaimOverflow);
}

#[test]
fn claim_is_turned_down() {
    let mut ctx = ClaimRevenueShare {
        revenue_event: event(1_000, 0, RevenueStatus::Completed),
        revenue_event_key: key(30),
        developer_profile: profile(0),
        claimant: key(10),
        developer_pool_vault_lamports: 499,
        revenue_claim_bump: 5,
    };
    assert_eq!(
        claim_revenue_share::handler(&mut ctx, 1).unwrap_err(),
        RevenueError::EventAlreadyCompleted
    );
    ctx.revenue_event.status = RevenueStatus::Recorded;
    assert_eq!(
        claim_revenue_share::handler(&mut ctx, 1).unwrap_err(),
        RevenueError::NoContributionScore
    );
    ctx.developer_profile.contribution_score = 1;
    assert_eq!(claim_revenue_share::handler(&mut ctx, 1).unwrap_err(), RevenueError::DivisionByZero);
    ctx.revenue_event.total_contribution_score = 2;
    assert_eq!(
        claim_revenue_share::handler(&mut ctx, 1).unwrap_err(),
        RevenueError::InsufficientEscrowBalance
    );
    ctx.developer_pool_vault_lamports = 500;
    ctx.revenue_event.claimed_amount = u64::MAX - 499;
    assert_eq!(claim_revenue_share::handler(&mut ctx, 1).unwrap_err(), RevenueError::ClaimOverflow);
    ctx.revenue_event.claimed_amount = u64::MAX - 500;
    assert_eq!(claim_revenue_share::handler(&mut ctx, 1).unwrap().amount, 500);
}

#[test]
fn burn_is_recorded_once() {
    let mut ctx = ExecuteBurn {
        revenue_event: event(1_000, 3, RevenueStatus::Recorded),
        burn_authority: key(2),
        revenue_config: revenue_config(),
    };
    assert_eq!(
        execute_burn::handler(&mut ctx, 50, [6; 64]),
        Err(RevenueError::UnauthorizedBurnAuthority)
    );
    ctx.burn_authority = key(1);
    assert_eq!(execute_burn::handler(&mut ctx, 50, [6; 64]), Ok(()));
    assert_eq!(ctx.revenue_event.burn_signature, [6; 64]);
    assert_eq!(ctx.revenue_event.gsd_burned, 50);
    assert_eq!(ctx.revenue_event.status, RevenueStatus::Completed);
    assert_eq!(
        execute_burn::handler(&mut ctx, 60, [7; 64]),
        Err(RevenueError::BurnAlreadyExecuted)
    );
    assert_eq!(ctx.revenue_event.gsd_burned, 50);
    let mut last = [0u8; 64];
    last[63] = 1;
    ctx.revenue_event.burn_signature = last;
    assert_eq!(
        execute_burn::handler(&mut ctx, 60, [7; 64]),
        Err(RevenueError::BurnAlreadyExecuted)
    );
}

#[test]
fn verification_weights_must_make_the_whole() {
    let c = verification_config();
    assert_eq!(c.version, 1);
    assert_eq!(c.admin, key(1));
    assert_eq!(c.bump, 8);
    assert_eq!(c.confidence_threshold, 6000);
    assert_eq!(c.min_reviewers, 3);
    assert_eq!(c.consensus_threshold_bps, 7000);
    assert_eq!(c.review_timeout_days, 7);
    let ctx = InitVerificationConfig { admin: key(1), verification_config_bump: 8 };
    assert_eq!(
        init_verification_config::handler(&ctx, 6000, 2500, 2000, 1500, 2500, 1499, 3, 7000, 7)
            .unwrap_err(),
        VerificationError::WeightsMustSumTo10000
    );
    assert_eq!(
        init_verification_config::handler(&ctx, 0, 65535, 65535, 65535, 65535, 65535, 3, 7000, 7)
            .unwrap_err(),
        VerificationError::WeightsMustSumTo10000
    );
}

#[test]
fn verification_status_follows_type_and_confidence() {
    let ctx = SubmitVerification {
        authority: key(1),
        developer: key(10),
        verification_config: verification_config(),
        verification_report_bump: 2,
    };
    let r = submit_verification::handler(&ctx, [1; 32], VerificationType::Ai, 9000, 6000, [2; 32], 5)
        .unwrap();
    assert_eq!(r.status, VerificationStatus::Completed);
    assert_eq!(r.developer, key(10));
    assert_eq!(r.task_ref, [1; 32]);
    assert_eq!(r.bump, 2);
    assert_eq!(r.verification_type, VerificationType::Ai);
    assert_eq!((r.score, r.confidence), (9000, 6000));
    assert_eq!(r.report_hash, [2; 32]);
    assert_eq!(r.verified_at, 5);
    assert_eq!(r.reviewer_count, 0);
    assert_eq!(r.config_version, 1);
    let r = submit_verification::handler(&ctx, [1; 32], VerificationType::Ai, 9000, 5999, [2; 32], 5)
        .unwrap();
    assert_eq!(r.status, VerificationStatus::Pending);
    let r = submit_verification::handler(&ctx, [1; 32], VerificationType::Peer, 9000, 0, [2; 32], 5)
        .unwrap();
    assert_eq!(r.status, VerificationStatus::Completed);
    assert_eq!(
        submit_verification::handler(&ctx, [1; 32], VerificationType::Ai, 10_001, 10_001, [2; 32], 5)
            .unwrap_err(),
        VerificationError::InvalidVerificationScore
    );
    assert_eq!(
        submit_verification::handler(&ctx, [1; 32], VerificationType::Ai, 10_000, 10_001, [2; 32], 5)
            .unwrap_err(),
        VerificationError::InvalidConfidence
    );
}

#[test]
fn peer_verdict_is_recorded_and_counted() {
    let mut ctx = SubmitPeerReview {
        reviewer: key(11),
        verification_report: pending_report(0),
        verification_report_key: key(40),
        peer_review_bump: 6,
    };
    let r = submit_peer_review::handler(&mut ctx, 2, 2000, 8000, true, [4; 32], 900).unwrap();
    assert_eq!(r.reviewer, key(11));
    assert_eq!(r.verification_report, key(40));
    assert_eq!(r.bump, 6);
    assert_eq!((r.tier, r.weight, r.score), (2, 2000, 8000));
    assert!(r.passed);
    assert_eq!(r.review_hash, [4; 32]);
    assert_eq!(r.reviewed_at, 900);
    assert_eq!(ctx.verification_report.reviewer_count, 1);
}

#[test]
fn peer_verdict_is_turned_down() {
    let mut ctx = SubmitPeerReview {
        reviewer: key(10),
        verification_report: pending_report(0),
        verification_report_key: key(40),
        peer_review_bump: 6,
    };
    ctx.verification_report.status = VerificationStatus::Completed;
    assert_eq!(
        submit_peer_review::handler(&mut ctx, 0, 1, 10_001, true, [4; 32], 1).unwrap_err(),
        VerificationError::ReviewerIsDeveloper
    );
    ctx.reviewer = key(11);
    assert_eq!(
        submit_peer_review::handler(&mut ctx, 0, 1, 10_001, true, [4; 32], 1).unwrap_err(),
        VerificationError::VerificationAlreadyExists
    );
    ctx.verification_report.status = VerificationStatus::Pending;
    assert_eq!(
        submit_peer_review::handler(&mut ctx, 0, 1, 10_001, true, [4; 32], 1).unwrap_err(),
        VerificationError::InvalidTier
    );
    assert_eq!(
        submit_peer_review::handler(&mut ctx, 4, 1, 10_001, true, [4; 32], 1).unwrap_err(),
        VerificationError::InvalidTier
    );
    assert_eq!(
        submit_peer_review::handler(&mut ctx, 3, 1, 10_001, true, [4; 32], 1).unwrap_err(),
        VerificationError::InvalidVerificationScore
    );
    assert_eq!(ctx.verification_report.reviewer_count, 0);
}

#[test]
fn peer_verification_closes_with_enough_verdicts() {
    let mut ctx = FinalizePeerVerification {
        authority: key(1),
        verification_report: pending_report(2),
        verification_config: verification_config(),
    };
    assert_eq!(
        finalize_peer_verification::handler(&mut ctx, 7000, 8000, [5; 32]),
        Err(VerificationError::InsufficientReviewers)
    );
    assert_eq!(ctx.verification_report.status, VerificationStatus::Pending);
    ctx.verification_report.reviewer_count = 3;
    assert_eq!(finalize_peer_verification::handler(&mut ctx, 7000, 8000, [5; 32]), Ok(()));
    let r = ctx.verification_report;
    assert_eq!((r.score, r.confidence), (7000, 8000));
    assert_eq!(r.status, VerificationStatus::Completed);
    assert_eq!(r.verification_type, VerificationType::Peer);
    assert_eq!(r.report_hash, [5; 32]);
    assert_eq!(r.reviewer_count, 3);
}
