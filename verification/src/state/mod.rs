pub mod contribution;
pub mod delegation_record;
pub mod developer;
pub mod governance_config;
pub mod idea;
pub mod idea_round;
pub mod merkle_tree;
pub mod peer_review;
pub mod pubkey;
pub mod revenue_claim;
pub mod revenue_config;
pub mod revenue_event;
pub mod revenue_vault;
pub mod reviewer_profile;
pub mod verification_config;
pub mod verification_report;
pub mod vote_deposit;
pub mod vote_record;

pub use contribution::ContributionLeaf;
pub use delegation_record::DelegationRecord;
pub use developer::DeveloperProfile;
pub use governance_config::GovernanceConfig;
pub use idea::{Idea, IdeaStatus};
pub use idea_round::{IdeaRound, QuorumType, RoundStatus};
pub use merkle_tree::ContributionTreeConfig;
pub use peer_review::PeerReview;
pub use pubkey::Pubkey;
pub use revenue_claim::RevenueClaim;
pub use revenue_config::RevenueConfig;
pub use revenue_event::{RevenueEvent, RevenueStatus, RevenueToken};
pub use revenue_vault::REVENUE_VAULT_SEED;
pub use reviewer_profile::ReviewerProfile;
pub use verification_config::VerificationConfig;
pub use verification_report::{VerificationReport, VerificationStatus, VerificationType};
pub use vote_deposit::VoteDeposit;
pub use vote_record::{VoteChoice, VoteRecord};
