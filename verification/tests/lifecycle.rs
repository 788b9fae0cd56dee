use gsd_hub::errors::GovernanceError;
use gsd_hub::instructions::create_round::CreateRound;
use gsd_hub::instructions::delegate_vote::DelegateVote;
use gsd_hub::instructions::deposit_tokens::DepositTokens;
use gsd_hub::instructions::init_governance_config::InitGovernanceConfig;
use gsd_hub::instructions::relinquish_vote::RelinquishVote;
use gsd_hub::instructions::revoke_delegation::RevokeDelegation;
use gsd_hub::instructions::submit_idea::SubmitIdea;
use gsd_hub::instructions::transition_round::TransitionRound;
use gsd_hub::instructions::update_governance_config::UpdateGovernanceConfig;
use gsd_hub::instructions::veto_idea::VetoIdea;
use gsd_hub::instructions::withdraw_tokens::WithdrawTokens;
use gsd_hub::instructions::{
    create_round, delegate_vote, deposit_tokens, init_governance_config, relinquish_vote,
    revoke_delegation, submit_idea, transition_round, update_governance_config, veto_idea,
    withdraw_tokens,
};
use gsd_hub::state::delegation_record::DelegationRecord;
use gsd_hub::state::governance_config::GovernanceConfig;
use gsd_hub::state::idea::{Idea, IdeaStatus};
use gsd_hub::state::idea_round::{IdeaRound, QuorumType, RoundStatus};
use gsd_hub::state::pubkey::Pubkey;
use gsd_hub::state::vote_deposit::VoteDeposit;
use gsd_hub::state::vote_record::{VoteChoice, VoteRecord};

fn key(b: u8) -> Pubkey {
    Pubkey::new_from_array([b; 32])
}

fn config() -> GovernanceConfig {
    init_governance_config::handler(
        &InitGovernanceConfig {
            admin: key(1),
            governance_token_mint: key(3),
            veto_authority: key(2),
            governance_config_bump: 254,
        },
        50,
        0,
    )
}

fn round(status: RoundStatus) -> IdeaRound {
    IdeaRound {
        authority: key(1),
        round_index: 0,
        bump: 253,
        status,
        submission_start: 100,
        submission_end: 200,
        voting_end: 300,
        idea_count: 0,
        quorum_type: QuorumType::Treasury,
        content_hash: [8; 32],
    }
}

fn idea(status: IdeaStatus) -> Idea {
    Idea {
        author: key(20),
        round: key(30),
        idea_index: 0,
        bump: 250,
        status,
        content_hash: [7; 32],
        submitted_at: 150,
        yes_weight: 1,
        no_weight: 2,
        abstain_weight: 3,
        voter_count: 3,
        execution_eligible_at: 0,
    }
}

fn stake(amount: u64, active_votes: u32) -> VoteDeposit {
    VoteDeposit {
        authority: key(50),
        bump: 252,
        deposited_amount: amount,
        deposit_timestamp: 1_000,
        eligible_at: 1_050,
        active_votes,
    }
}

#[test]
fn quorum_classes_map_to_basis_points() {
    assert_eq!(QuorumType::Small.required_bps(), 500);
    assert_eq!(QuorumType::Treasury.required_bps(), 2000);
    assert_eq!(QuorumType::ParameterChange.required_bps(), 3300);
}

#[test]
fn new_config_takes_defaults_for_zero_timelocks() {
    let ctx = InitGovernanceConfig {
        admin: key(1),
        governance_token_mint: key(3),
        veto_authority: key(2),
        governance_config_bump: 254,
    };
    let c = init_governance_config::handler(&ctx, 0, 0);
    assert_eq!(c.deposit_timelock, 604_800);
    assert_eq!(c.execution_timelock, 172_800);
    assert_eq!(c.admin, key(1));
    assert_eq!(c.veto_authority, key(2));
    assert_eq!(c.governance_token_mint, key(3));
    assert_eq!(c.bump, 254);
    assert_eq!(c.round_count, 0);
    assert_eq!(c.total_deposited, 0);
    assert!(!c.quadratic_voting_enabled);
    assert_eq!(c.civic_gatekeeper_network, Pubkey::default());
    assert_eq!(c.civic_gatekeeper_network.to_bytes(), [0u8; 32]);
    assert_eq!(c.decay_half_life_days, 180);
    let c = init_governance_config::handler(&ctx, 11, -5);
    assert_eq!(c.deposit_timelock, 11);
    assert_eq!(c.execution_timelock, -5);
}

#[test]
fn only_the_admin_updates_the_config() {
    let mut ctx = UpdateGovernanceConfig { governance_config: config(), admin: key(9) };
    assert_eq!(
        update_governance_config::handler(&mut ctx, true, key(4), 90),
        Err(GovernanceError::UnauthorizedAdmin)
    );
    assert!(!ctx.governance_config.quadratic_voting_enabled);
    assert_eq!(ctx.governance_config.decay_half_life_days, 180);
    ctx.admin = key(1);
    assert_eq!(update_governance_config::handler(&mut ctx, true, key(4), 90), Ok(()));
    assert!(ctx.governance_config.quadratic_voting_enabled);
    assert_eq!(ctx.governance_config.civic_gatekeeper_network, key(4));
    assert_eq!(ctx.governance_config.decay_half_life_days, 90);
    assert_eq!(ctx.governance_config.deposit_timelock, 50);
}

#[test]
fn round_is_created_open_and_counted() {
    let mut ctx = CreateRound { governance_config: config(), admin: key(1), idea_round_bump: 7 };
    let r = create_round::handler(&mut ctx, 100, 200, 300, QuorumType::Small, [5; 32]).unwrap();
    assert_eq!(r.authority, key(1));
    assert_eq!(r.round_index, 0);
    assert_eq!(r.bump, 7);
    assert_eq!(r.status, RoundStatus::Open);
    assert_eq!((r.submission_start, r.submission_end, r.voting_end), (100, 200, 300));
    assert_eq!(r.idea_count, 0);
    assert_eq!(r.quorum_type, QuorumType::Small);
    assert_eq!(r.content_hash, [5; 32]);
    assert_eq!(ctx.governance_config.round_count, 1);
    let r = create_round::handler(&mut ctx, 1, 2, 3, QuorumType::Small, [5; 32]).unwrap();
    assert_eq!(r.round_index, 1);
    assert_eq!(ctx.governance_config.round_count, 2);
}

#[test]
fn round_with_bad_times_is_turned_down() {
    let mut ctx = CreateRound { governance_config: config(), admin: key(1), idea_round_bump: 7 };
    let cases: [(i64, i64, i64); 7] = [
        (0, 200, 300),
        (-1, 200, 300),
        (100, 100, 300),
        (100, 200, 200),
        (200, 100, 300),
        (100, 300, 200),
        (100, 200, 0),
    ];
    for (a, b, c) in cases {
        assert_eq!(
            create_round::handler(&mut ctx, a, b, c, QuorumType::Small, [5; 32]).unwrap_err(),
            GovernanceError::InvalidTimestamps
        );
    }
    assert_eq!(ctx.governance_config.round_count, 0);
}

#[test]
fn only_the_admin_creates_rounds() {
    let mut ctx = CreateRound { governance_config: config(), admin: key(2), idea_round_bump: 7 };
    assert_eq!(
        create_round::handler(&mut ctx, 0, 0, 0, QuorumType::Small, [5; 32]).unwrap_err(),
        GovernanceError::UnauthorizedAdmin
    );
}

#[test]
fn full_round_counter_is_an_overflow() {
    let mut ctx = CreateRound { governance_config: config(), admin: key(1), idea_round_bump: 7 };
    ctx.governance_config.round_count = u32::MAX;
    assert_eq!(
        create_round::handler(&mut ctx, 100, 200, 300, QuorumType::Small, [5; 32]).unwrap_err(),
        GovernanceError::Overflow
    );
    assert_eq!(ctx.governance_config.round_count, u32::MAX);
}

#[test]
fn round_moves_forward_at_its_deadlines() {
    let mut ctx = TransitionRound { idea_round: round(RoundStatus::Open) };
    assert_eq!(transition_round::handler(&mut ctx, 150), Err(GovernanceError::TooEarly));
    assert_eq!(ctx.idea_round.status, RoundStatus::Open);
    assert_eq!(transition_round::handler(&mut ctx, 200), Ok(()));
    assert_eq!(ctx.idea_round.status, RoundStatus::Voting);
    assert_eq!(transition_round::handler(&mut ctx, 250), Err(GovernanceError::TooEarly));
    assert_eq!(ctx.idea_round.status, RoundStatus::Voting);
    assert_eq!(transition_round::handler(&mut ctx, 300), Ok(()));
    assert_eq!(ctx.idea_round.status, RoundStatus::Closed);
    assert_eq!(transition_round::handler(&mut ctx, 301), Err(GovernanceError::AlreadyClosed));
    assert_eq!(transition_round::handler(&mut ctx, 0), Err(GovernanceError::AlreadyClosed));
    assert_eq!(ctx.idea_round.status, RoundStatus::Closed);
}

#[test]
fn late_crank_takes_one_step_at_a_time() {
    let mut ctx = TransitionRound { idea_round: round(RoundStatus::Open) };
    assert_eq!(transition_round::handler(&mut ctx, 1_000), Ok(()));
    assert_eq!(ctx.idea_round.status, RoundStatus::Voting);
    assert_eq!(transition_round::handler(&mut ctx, 1_000), Ok(()));
    assert_eq!(ctx.idea_round.status, RoundStatus::Closed);
}

#[test]
fn idea_is_submitted_within_the_window() {
    let mut ctx = SubmitIdea {
        idea_round: round(RoundStatus::Open),
        idea_round_key: key(30),
        author: key(20),
        idea_bump: 9,
    };
    assert_eq!(
        submit_idea::handler(&mut ctx, [6; 32], 99).unwrap_err(),
        GovernanceError::SubmissionPeriodEnded
    );
    assert_eq!(
        submit_idea::handler(&mut ctx, [6; 32], 200).unwrap_err(),
        GovernanceError::SubmissionPeriodEnded
    );
    let first = submit_idea::handler(&mut ctx, [6; 32], 100).unwrap();
    assert_eq!(first.author, key(20));
    assert_eq!(first.round, key(30));
    assert_eq!(first.idea_index, 0);
    assert_eq!(first.bump, 9);
    assert_eq!(first.status, IdeaStatus::Submitted);
    assert_eq!(first.content_hash, [6; 32]);
    assert_eq!(first.submitted_at, 100);
    assert_eq!((first.yes_weight, first.no_weight, first.abstain_weight), (0, 0, 0));
    assert_eq!(first.voter_count, 0);
    assert_eq!(first.execution_eligible_at, 0);
    assert_eq!(ctx.idea_round.idea_count, 1);
    let second = submit_idea::handler(&mut ctx, [6; 32], 199).unwrap();
    assert_eq!(second.idea_index, 1);
    assert_eq!(ctx.idea_round.idea_count, 2);
}

#[test]
fn idea_needs_an_open_round() {
    for status in [RoundStatus::Voting, RoundStatus::Closed] {
        let mut ctx = SubmitIdea {
            idea_round: round(status),
            idea_round_key: key(30),
            author: key(20),
            idea_bump: 9,
        };
        assert_eq!(
            submit_idea::handler(&mut ctx, [6; 32], 150).unwrap_err(),
            GovernanceError::RoundNotOpen
        );
        assert_eq!(ctx.idea_round.idea_count, 0);
    }
    let mut full = SubmitIdea {
        idea_round: round(RoundStatus::Open),
        idea_round_key: key(30),
        author: key(20),
        idea_bump: 9,
    };
    full.idea_round.idea_count = u32::MAX;
    assert_eq!(
        submit_idea::handler(&mut full, [6; 32], 150).unwrap_err(),
        GovernanceError::Overflow
    );
}

#[test]
fn first_deposit_starts_the_timelock() {
    let mut ctx = DepositTokens {
        governance_config: config(),
        vote_deposit: VoteDeposit::empty(key(50)),
        depositor: key(50),
        vote_deposit_bump: 252,
    };
    assert_eq!(deposit_tokens::handler(&mut ctx, 0, 1_000), Err(GovernanceError::InsufficientDeposit));
    assert_eq!(deposit_tokens::handler(&mut ctx, 70, 1_000), Ok(()));
    assert_eq!(ctx.vote_deposit.authority, key(50));
    assert_eq!(ctx.vote_deposit.bump, 252);
    assert_eq!(ctx.vote_deposit.deposited_amount, 70);
    assert_eq!(ctx.vote_deposit.deposit_timestamp, 1_000);
    assert_eq!(ctx.vote_deposit.eligible_at, 1_050);
    assert_eq!(ctx.vote_deposit.active_votes, 0);
    assert_eq!(ctx.governance_config.total_deposited, 70);
    assert_eq!(deposit_tokens::handler(&mut ctx, 30, 2_000), Ok(()));
    assert_eq!(ctx.vote_deposit.deposited_amount, 100);
    assert_eq!(ctx.vote_deposit.deposit_timestamp, 1_000);
    assert_eq!(ctx.vote_deposit.eligible_at, 1_050);
    assert_eq!(ctx.governance_config.total_deposited, 100);
}

#[test]
fn deposit_overflow_changes_nothing() {
    let mut ctx = DepositTokens {
        governance_config: config(),
        vote_deposit: stake(u64::MAX, 0),
        depositor: key(50),
        vote_deposit_bump: 9,
    };
    assert_eq!(deposit_tokens::handler(&mut ctx, 1, 1_000), Err(GovernanceError::Overflow));
    assert_eq!(ctx.vote_deposit.bump, 252);
    let mut ctx = DepositTokens {
        governance_config: config(),
        vote_deposit: VoteDeposit::empty(key(50)),
        depositor: key(50),
        vote_deposit_bump: 9,
    };
    assert_eq!(deposit_tokens::handler(&mut ctx, 1, i64::MAX - 49), Err(GovernanceError::Overflow));
    assert_eq!(ctx.vote_deposit.deposited_amount, 0);
    assert_eq!(ctx.vote_deposit.deposit_timestamp, 0);
    ctx.governance_config.total_deposited = u64::MAX;
    assert_eq!(deposit_tokens::handler(&mut ctx, 1, 1_000), Err(GovernanceError::Overflow));
    assert_eq!(ctx.vote_deposit.deposited_amount, 0);
    assert_eq!(ctx.governance_config.total_deposited, u64::MAX);
}

#[test]
fn withdrawal_is_blocked_by_active_votes() {
    let mut c = config();
    c.total_deposited = 500;
    let mut ctx = WithdrawTokens { governance_config: c, vote_deposit: stake(100, 1), depositor: key(50) };
    assert_eq!(withdraw_tokens::handler(&mut ctx, 1), Err(GovernanceError::ActiveVotesExist));
    assert_eq!(withdraw_tokens::handler(&mut ctx, 0), Err(GovernanceError::ActiveVotesExist));
    assert_eq!(withdraw_tokens::handler(&mut ctx, 1_000), Err(GovernanceError::ActiveVotesExist));
    assert_eq!(ctx.vote_deposit.deposited_amount, 100);
    assert_eq!(ctx.governance_config.total_deposited, 500);
}

#[test]
fn partial_withdrawal_keeps_the_timelock() {
    let mut c = config();
    c.total_deposited = 500;
    let mut ctx = WithdrawTokens { governance_config: c, vote_deposit: stake(100, 0), depositor: key(50) };
    assert_eq!(withdraw_tokens::handler(&mut ctx, 101), Err(GovernanceError::InsufficientDeposit));
    assert_eq!(withdraw_tokens::handler(&mut ctx, 40), Ok(()));
    assert_eq!(ctx.vote_deposit.deposited_amount, 60);
    assert_eq!(ctx.vote_deposit.deposit_timestamp, 1_000);
    assert_eq!(ctx.vote_deposit.eligible_at, 1_050);
    assert_eq!(ctx.governance_config.total_deposited, 460);
}

#[test]
fn full_withdrawal_after_release_resets_the_timelock() {
    let mut release = RelinquishVote {
        round: round(RoundStatus::Closed),
        vote_record: VoteRecord {
            voter: key(50),
            idea: key(40),
            round: key(30),
            bump: 1,
            vote: VoteChoice::Yes,
            weight: 100,
            voted_at: 250,
        },
        vote_deposit: stake(100, 1),
        voter: key(50),
    };
    assert_eq!(relinquish_vote::handler(&mut release), Ok(()));
    assert_eq!(release.vote_deposit.active_votes, 0);
    let mut c = config();
    c.total_deposited = 100;
    let mut ctx = WithdrawTokens {
        governance_config: c,
        vote_deposit: release.vote_deposit,
        depositor: key(50),
    };
    assert_eq!(withdraw_tokens::handler(&mut ctx, 100), Ok(()));
    assert_eq!(ctx.vote_deposit.deposited_amount, 0);
    assert_eq!(ctx.vote_deposit.deposit_timestamp, 0);
    assert_eq!(ctx.vote_deposit.eligible_at, 0);
    assert_eq!(ctx.governance_config.total_deposited, 0);
}

#[test]
fn withdrawal_beyond_the_total_is_an_overflow() {
    let mut c = config();
    c.total_deposited = 10;
    let mut ctx = WithdrawTokens { governance_config: c, vote_deposit: stake(100, 0), depositor: key(50) };
    assert_eq!(withdraw_tokens::handler(&mut ctx, 11), Err(GovernanceError::Overflow));
    assert_eq!(ctx.vote_deposit.deposited_amount, 100);
    assert_eq!(ctx.governance_config.total_deposited, 10);
}

#[test]
fn vote_is_released_only_after_the_round_closed() {
    for status in [RoundStatus::Open, RoundStatus::Voting] {
        let mut ctx = RelinquishVote {
            round: round(status),
            vote_record: VoteRecord {
                voter: key(50),
                idea: key(40),
                round: key(30),
                bump: 1,
                vote: VoteChoice::Yes,
                weight: 100,
                voted_at: 250,
            },
            vote_deposit: stake(100, 2),
            voter: key(50),
        };
        assert_eq!(relinquish_vote::handler(&mut ctx), Err(GovernanceError::RoundStillActive));
        assert_eq!(ctx.vote_deposit.active_votes, 2);
    }
    let mut none_left = RelinquishVote {
        round: round(RoundStatus::Closed),
        vote_record: VoteRecord {
            voter: key(50),
            idea: key(40),
            round: key(30),
            bump: 1,
            vote: VoteChoice::Yes,
            weight: 100,
            voted_at: 250,
        },
        vote_deposit: stake(100, 0),
        voter: key(50),
    };
    assert_eq!(relinquish_vote::handler(&mut none_left), Err(GovernanceError::Overflow));
}

#[test]
fn delegation_snapshots_the_stake() {
    let mut c = config();
    c.round_count = 4;
    let ctx = DelegateVote {
        governance_config: c,
        vote_deposit: stake(100, 0),
        delegator: key(50),
        delegate: key(60),
        delegation_record_bump: 3,
    };
    let record = delegate_vote::handler(&ctx, 1_234).unwrap();
    assert_eq!(record.delegator, key(50));
    assert_eq!(record.delegate, key(60));
    assert_eq!(record.bump, 3);
    assert_eq!(record.delegated_amount, 100);
    assert_eq!(record.delegated_at, 1_234);
    assert!(record.is_active);
    assert_eq!(record.effective_from_round, 4);
}

#[test]
fn delegation_needs_a_free_stake() {
    let mut ctx = DelegateVote {
        governance_config: config(),
        vote_deposit: stake(0, 1),
        delegator: key(50),
        delegate: key(60),
        delegation_record_bump: 3,
    };
    assert_eq!(delegate_vote::handler(&ctx, 1).unwrap_err(), GovernanceError::NoDeposit);
    ctx.vote_deposit = stake(100, 1);
    assert_eq!(
        delegate_vote::handler(&ctx, 1).unwrap_err(),
        GovernanceError::CannotDelegateWithActiveVotes
    );
}

#[test]
fn only_an_active_delegation_is_revoked() {
    let record = DelegationRecord {
        delegator: key(50),
        delegate: key(60),
        bump: 3,
        delegated_amount: 100,
        delegated_at: 1,
        is_active: true,
        effective_from_round: 0,
    };
    let mut ctx = RevokeDelegation { delegation_record: record, delegator: key(50) };
    assert_eq!(revoke_delegation::handler(&mut ctx), Ok(()));
    assert!(!ctx.delegation_record.is_active);
    assert_eq!(ctx.delegation_record.delegated_amount, 100);
    assert_eq!(revoke_delegation::handler(&mut ctx), Err(GovernanceError::NoDelegation));
}

#[test]
fn veto_is_for_the_veto_authority_and_is_final() {
    let mut ctx = VetoIdea {
        idea: idea(IdeaStatus::Submitted),
        round: round(RoundStatus::Voting),
        governance_config: config(),
        veto_authority: key(1),
    };
    assert_eq!(veto_idea::handler(&mut ctx), Err(GovernanceError::UnauthorizedVeto));
    assert_eq!(ctx.idea.status, IdeaStatus::Submitted);
    ctx.veto_authority = key(2);
    assert_eq!(veto_idea::handler(&mut ctx), Ok(()));
    assert_eq!(ctx.idea.status, IdeaStatus::Vetoed);
    assert_eq!((ctx.idea.yes_weight, ctx.idea.no_weight, ctx.idea.abstain_weight), (1, 2, 3));
    assert_eq!(veto_idea::handler(&mut ctx), Err(GovernanceError::NotVetoable));
    ctx.idea.status = IdeaStatus::Rejected;
    assert_eq!(veto_idea::handler(&mut ctx), Err(GovernanceError::NotVetoable));
    ctx.idea.status = IdeaStatus::Approved;
    assert_eq!(veto_idea::handler(&mut ctx), Ok(()));
    assert_eq!(ctx.idea.status, IdeaStatus::Vetoed);
}
