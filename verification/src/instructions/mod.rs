pub mod cast_vote;
pub mod claim_revenue_share;
pub mod create_round;
pub mod delegate_vote;
pub mod deposit_tokens;
pub mod execute_burn;
pub mod finalize_peer_verification;
pub mod init_contribution_tree;
pub mod init_governance_config;
pub mod init_revenue_config;
pub mod init_verification_config;
pub mod record_contribution;
pub mod record_revenue_event;
pub mod register;
pub mod relinquish_vote;
pub mod revoke_delegation;
pub mod submit_idea;
pub mod submit_peer_review;
pub mod submit_verification;
pub mod transition_round;
pub mod update_governance_config;
pub mod update_hash;
pub mod update_score;
pub mod veto_idea;
pub mod withdraw_tokens;
