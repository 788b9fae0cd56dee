use gsd_hub::errors::GovernanceError;
use gsd_hub::instructions::cast_vote::{
    compute_weight, handler, isqrt, verify_sybil_gate, CastVote, GatewayAccount, GatewayToken,
    CIVIC_GATEWAY_PROGRAM,
};
use gsd_hub::state::delegation_record::DelegationRecord;
use gsd_hub::state::governance_config::GovernanceConfig;
use gsd_hub::state::idea::{Idea, IdeaStatus};
use gsd_hub::state::idea_round::{IdeaRound, QuorumType, RoundStatus};
use gsd_hub::state::pubkey::Pubkey;
use gsd_hub::state::vote_deposit::VoteDeposit;
use gsd_hub::state::vote_record::VoteChoice;

fn key(b: u8) -> Pubkey {
    Pubkey::new_from_array([b; 32])
}

fn delegation(delegator: u8, delegate: u8, amount: u64, is_active: bool) -> DelegationRecord {
    DelegationRecord {
        delegator: key(delegator),
        delegate: key(delegate),
        bump: 255,
        delegated_amount: amount,
        delegated_at: 5,
        is_active,
        effective_from_round: 0,
    }
}

fn config(quadratic: bool) -> GovernanceConfig {
    GovernanceConfig {
        admin: key(1),
        veto_authority: key(2),
        governance_token_mint: key(3),
        bump: 254,
        round_count: 1,
        total_deposited: 1_000,
        deposit_timelock: 604_800,
        execution_timelock: 172_800,
        quadratic_voting_enabled: quadratic,
        civic_gatekeeper_network: key(9),
        decay_half_life_days: 180,
    }
}

fn voting_ctx(quadratic: bool, deposited: u64) -> CastVote {
    CastVote {
        idea: Idea {
            author: key(20),
            round: key(30),
            idea_index: 0,
            bump: 250,
            status: IdeaStatus::Submitted,
            content_hash: [7; 32],
            submitted_at: 150,
            yes_weight: 10,
            no_weight: 20,
            abstain_weight: 30,
            voter_count: 3,
            execution_eligible_at: 0,
        },
        idea_key: key(40),
        round: IdeaRound {
            authority: key(1),
            round_index: 0,
            bump: 253,
            status: RoundStatus::Voting,
            submission_start: 100,
            submission_end: 200,
            voting_end: 300,
            idea_count: 1,
            quorum_type: QuorumType::Small,
            content_hash: [8; 32],
        },
        round_key: key(30),
        vote_deposit: VoteDeposit {
            authority: key(50),
            bump: 252,
            deposited_amount: deposited,
            deposit_timestamp: 10,
            eligible_at: 210,
            active_votes: 0,
        },
        governance_config: config(quadratic),
        gateway_token: None,
        voter: key(50),
        vote_record_bump: 251,
    }
}

fn gateway_data(subject: u8, network: u8, state: u64, expiry: u64) -> Vec<u8> {
    let mut data = vec![0u8];
    data.extend_from_slice(&[subject; 32]);
    data.extend_from_slice(&[network; 32]);
    data.extend_from_slice(&state.to_le_bytes());
    data.extend_from_slice(&expiry.to_le_bytes());
    data
}

fn gateway(subject: u8, network: u8, state: u64, expiry: u64) -> Option<GatewayAccount> {
    Some(GatewayAccount {
        owner: Pubkey::new_from_array(CIVIC_GATEWAY_PROGRAM),
        data: gateway_data(subject, network, state, expiry),
    })
}

#[test]
fn isqrt_of_named_values() {
    assert_eq!(isqrt(0), 0);
    assert_eq!(isqrt(1), 1);
    assert_eq!(isqrt(99), 9);
    assert_eq!(isqrt(100), 10);
    assert_eq!(isqrt(10000), 100);
}

#[test]
fn isqrt_of_small_values() {
    assert_eq!(isqrt(2), 1);
    assert_eq!(isqrt(3), 1);
    assert_eq!(isqrt(4), 2);
    assert_eq!(isqrt(8), 2);
    assert_eq!(isqrt(9), 3);
    assert_eq!(isqrt(150), 12);
}

#[test]
fn isqrt_at_the_top_of_the_range() {
    assert_eq!(isqrt(u64::MAX), 4_294_967_295);
    assert_eq!(isqrt(18_446_744_065_119_617_025), 4_294_967_295);
    assert_eq!(isqrt(18_446_744_065_119_617_024), 4_294_967_294);
}

#[test]
fn isqrt_is_the_floor_of_the_root() {
    let mut n: u64 = 0;
    while n < 5_000 {
        let r = isqrt(n) as u128;
        assert!(r * r <= n as u128);
        assert!((n as u128) < (r + 1) * (r + 1));
        n += 1;
    }
}

#[test]
fn linear_weight_is_own_stake_plus_delegations() {
    let records = vec![delegation(60, 50, 40, true), delegation(61, 50, 2, true)];
    let weight = compute_weight(&key(50), 100, &records, false, &None, &key(9), 250);
    assert_eq!(weight, Ok(142));
}

#[test]
fn repeated_record_counts_once() {
    let record = delegation(60, 50, 40, true);
    let records = vec![record, record, record];
    assert_eq!(compute_weight(&key(50), 100, &records, false, &None, &key(9), 250), Ok(140));
}

#[test]
fn records_for_others_and_inactive_records_are_skipped() {
    let records = vec![
        delegation(60, 51, 40, true),
        delegation(61, 50, 7, false),
        delegation(62, 50, 5, true),
    ];
    assert_eq!(compute_weight(&key(50), 100, &records, false, &None, &key(9), 250), Ok(105));
}

#[test]
fn inactive_record_does_not_hide_a_later_active_one() {
    let records = vec![delegation(60, 50, 40, false), delegation(60, 50, 40, true)];
    assert_eq!(compute_weight(&key(50), 1, &records, false, &None, &key(9), 250), Ok(41));
}

#[test]
fn own_active_delegation_bars_the_voter() {
    let records = vec![delegation(60, 50, 40, true), delegation(50, 70, 100, true)];
    assert_eq!(
        compute_weight(&key(50), 100, &records, false, &None, &key(9), 250),
        Err(GovernanceError::VotingPowerDelegated)
    );
}

#[test]
fn own_inactive_delegation_does_not_bar_the_voter() {
    let records = vec![delegation(50, 70, 100, false)];
    assert_eq!(compute_weight(&key(50), 100, &records, false, &None, &key(9), 250), Ok(100));
}

#[test]
fn voting_power_overflow_is_an_error() {
    let records = vec![delegation(60, 50, u64::MAX, true)];
    assert_eq!(
        compute_weight(&key(50), 1, &records, false, &None, &key(9), 250),
        Err(GovernanceError::Overflow)
    );
}

#[test]
fn quadratic_weight_is_the_root_of_the_power() {
    let records = vec![delegation(60, 50, 50, true)];
    let weight = compute_weight(&key(50), 100, &records, true, &gateway(50, 9, 0, 0), &key(9), 250);
    assert_eq!(weight, Ok(12));
}

#[test]
fn quadratic_voting_needs_a_proof() {
    assert_eq!(
        compute_weight(&key(50), 100, &vec![], true, &None, &key(9), 250),
        Err(GovernanceError::HumanVerificationRequired)
    );
}

#[test]
fn sybil_check_names_each_fault() {
    let voter = key(50);
    let network = key(9);
    let wrong_owner = Some(GatewayAccount { owner: key(77), data: gateway_data(50, 9, 0, 0) });
    assert_eq!(
        verify_sybil_gate(&wrong_owner, &voter, &network, 250),
        Err(GovernanceError::InvalidGatewayToken)
    );
    let short = Some(GatewayAccount {
        owner: Pubkey::new_from_array(CIVIC_GATEWAY_PROGRAM),
        data: vec![0u8; 80],
    });
    assert_eq!(
        verify_sybil_gate(&short, &voter, &network, 250),
        Err(GovernanceError::InvalidGatewayToken)
    );
    assert_eq!(
        verify_sybil_gate(&gateway(51, 9, 0, 0), &voter, &network, 250),
        Err(GovernanceError::GatewayTokenOwnerMismatch)
    );
    assert_eq!(
        verify_sybil_gate(&gateway(50, 8, 0, 0), &voter, &network, 250),
        Err(GovernanceError::GatewayNetworkMismatch)
    );
    assert_eq!(
        verify_sybil_gate(&gateway(50, 9, 1, 0), &voter, &network, 250),
        Err(GovernanceError::GatewayTokenNotActive)
    );
    assert_eq!(
        verify_sybil_gate(&gateway(50, 9, 0, 249), &voter, &network, 250),
        Err(GovernanceError::GatewayTokenExpired)
    );
    assert_eq!(verify_sybil_gate(&gateway(50, 9, 0, 250), &voter, &network, 250), Ok(()));
    assert_eq!(verify_sybil_gate(&gateway(50, 9, 0, 0), &voter, &network, 250), Ok(()));
}

#[test]
fn gateway_token_is_read_from_its_layout() {
    let mut data = gateway_data(50, 9, 3, 0x0102_0304_0506_0708);
    data.push(99);
    let token = GatewayToken::parse(&data).unwrap();
    assert_eq!(token.subject, key(50));
    assert_eq!(token.network, key(9));
    assert_eq!(token.state, 3);
    assert_eq!(token.expiry, 0x0102_0304_0506_0708);
    assert!(GatewayToken::parse(&data[..80]).is_none());
    assert!(GatewayToken::parse(&data[..81]).is_some());
}

#[test]
fn vote_is_tallied_and_recorded() {
    let mut ctx = voting_ctx(false, 100);
    let records = vec![delegation(60, 50, 40, true)];
    let record = handler(&mut ctx, &records, VoteChoice::No, 250).unwrap();
    assert_eq!(record.voter, key(50));
    assert_eq!(record.idea, key(40));
    assert_eq!(record.round, key(30));
    assert_eq!(record.bump, 251);
    assert_eq!(record.vote, VoteChoice::No);
    assert_eq!(record.weight, 140);
    assert_eq!(record.voted_at, 250);
    assert_eq!(ctx.idea.yes_weight, 10);
    assert_eq!(ctx.idea.no_weight, 160);
    assert_eq!(ctx.idea.abstain_weight, 30);
    assert_eq!(ctx.idea.voter_count, 4);
    assert_eq!(ctx.vote_deposit.active_votes, 1);
    assert_eq!(ctx.vote_deposit.deposited_amount, 100);
}

#[test]
fn each_choice_has_its_own_counter() {
    let mut yes = voting_ctx(false, 5);
    handler(&mut yes, &vec![], VoteChoice::Yes, 250).unwrap();
    assert_eq!((yes.idea.yes_weight, yes.idea.no_weight, yes.idea.abstain_weight), (15, 20, 30));
    let mut abstain = voting_ctx(false, 5);
    handler(&mut abstain, &vec![], VoteChoice::Abstain, 250).unwrap();
    assert_eq!(
        (abstain.idea.yes_weight, abstain.idea.no_weight, abstain.idea.abstain_weight),
        (10, 20, 35)
    );
}

#[test]
fn vote_is_turned_down_in_the_order_of_the_checks() {
    let mut ctx = voting_ctx(false, 0);
    ctx.round.status = RoundStatus::Open;
    assert_eq!(
        handler(&mut ctx, &vec![], VoteChoice::Yes, 1000).unwrap_err(),
        GovernanceError::RoundNotInVotingState
    );
    ctx.round.status = RoundStatus::Closed;
    assert_eq!(
        handler(&mut ctx, &vec![], VoteChoice::Yes, 1000).unwrap_err(),
        GovernanceError::RoundNotInVotingState
    );
    ctx.round.status = RoundStatus::Voting;
    assert_eq!(
        handler(&mut ctx, &vec![], VoteChoice::Yes, 1000).unwrap_err(),
        GovernanceError::NoDeposit
    );
    ctx.vote_deposit.deposited_amount = 100;
    assert_eq!(
        handler(&mut ctx, &vec![], VoteChoice::Yes, 209).unwrap_err(),
        GovernanceError::TokensNotYetEligible
    );
    assert_eq!(
        handler(&mut ctx, &vec![], VoteChoice::Yes, 300).unwrap_err(),
        GovernanceError::VotingPeriodEnded
    );
    ctx.idea.yes_weight = u64::MAX - 99;
    assert_eq!(
        handler(&mut ctx, &vec![], VoteChoice::Yes, 250).unwrap_err(),
        GovernanceError::Overflow
    );
    assert_eq!(ctx.idea.yes_weight, u64::MAX - 99);
    assert_eq!(ctx.idea.voter_count, 3);
    assert_eq!(ctx.vote_deposit.active_votes, 0);
    ctx.idea.yes_weight = u64::MAX - 100;
    assert!(handler(&mut ctx, &vec![], VoteChoice::Yes, 250).is_ok());
    assert_eq!(ctx.idea.yes_weight, u64::MAX);
}

#[test]
fn timelock_gates_the_vote() {
    let mut early = voting_ctx(false, 100);
    assert_eq!(
        handler(&mut early, &vec![], VoteChoice::Yes, 209).unwrap_err(),
        GovernanceError::TokensNotYetEligible
    );
    let mut on_time = voting_ctx(false, 100);
    assert!(handler(&mut on_time, &vec![], VoteChoice::Yes, 210).is_ok());
}

#[test]
fn counter_overflow_leaves_the_records_alone() {
    let mut ctx = voting_ctx(false, 100);
    ctx.idea.voter_count = u32::MAX;
    assert_eq!(
        handler(&mut ctx, &vec![], VoteChoice::Yes, 250).unwrap_err(),
        GovernanceError::Overflow
    );
    assert_eq!(ctx.idea.yes_weight, 10);
    let mut ctx = voting_ctx(false, 100);
    ctx.vote_deposit.active_votes = u32::MAX;
    assert_eq!(
        handler(&mut ctx, &vec![], VoteChoice::Yes, 250).unwrap_err(),
        GovernanceError::Overflow
    );
    assert_eq!(ctx.idea.yes_weight, 10);
    assert_eq!(ctx.idea.voter_count, 3);
}

#[test]
fn quadratic_vote_through_the_handler() {
    let mut ctx = voting_ctx(true, 10_000);
    ctx.gateway_token = gateway(50, 9, 0, 0);
    let record = handler(&mut ctx, &vec![], VoteChoice::Yes, 250).unwrap();
    assert_eq!(record.weight, 100);
    assert_eq!(ctx.idea.yes_weight, 110);
}
