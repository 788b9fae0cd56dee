use vstd::prelude::*;

verus! {

/// Every error number is this offset plus the position of the variant in its enum.
pub const ERROR_CODE_OFFSET: u32 = 6000;

/// Failures of developer-profile and contribution-log operations.
#[derive(Clone, Copy, Debug, PartialEq, Eq, Structural)]
pub enum GsdHubError {
    /// Profile already exists.
    ProfileAlreadyExists,
    /// Unauthorized.
    Unauthorized,
    /// Invalid profile hash.
    InvalidProfileHash,
    /// Verification score must be 0-10000.
    InvalidVerificationScore,
    /// Contribution tree is full.
    TreeFull,
    /// Invalid tree authority.
    InvalidTreeAuthority,
    /// Invalid contribution data.
    InvalidContributionData,
    /// Contribution score calculation overflow.
    ScoreOverflow,
}

impl GsdHubError {
    /// Position of the variant in the enum, counted from zero.
    pub open spec fn spec_index(self) -> nat {
        match self {
            GsdHubError::ProfileAlreadyExists => 0,
            GsdHubError::Unauthorized => 1,
            GsdHubError::InvalidProfileHash => 2,
            GsdHubError::InvalidVerificationScore => 3,
            GsdHubError::TreeFull => 4,
            GsdHubError::InvalidTreeAuthority => 5,
            GsdHubError::InvalidContributionData => 6,
            GsdHubError::ScoreOverflow => 7,
        }
    }

    /// The text shown to a caller for this error.
    pub open spec fn spec_message(self) -> Seq<char> {
        match self {
            GsdHubError::ProfileAlreadyExists => "Profile already exists"@,
            GsdHubError::Unauthorized => "Unauthorized"@,
            GsdHubError::InvalidProfileHash => "Invalid profile hash"@,
            GsdHubError::InvalidVerificationScore => "Verification score must be 0-10000"@,
            GsdHubError::TreeFull => "Contribution tree is full"@,
            GsdHubError::InvalidTreeAuthority => "Invalid tree authority"@,
            GsdHubError::InvalidContributionData => "Invalid contribution data"@,
            GsdHubError::ScoreOverflow => "Contribution score calculation overflow"@,
        }
    }

    /// The number under which this error is reported: the offset plus the
    /// variant's position.
    pub fn code(&self) -> (c: u32)
        ensures
            c == ERROR_CODE_OFFSET + self.spec_index(),
    {
        match self {
            GsdHubError::ProfileAlreadyExists => ERROR_CODE_OFFSET,
            GsdHubError::Unauthorized => ERROR_CODE_OFFSET + 1,
            GsdHubError::InvalidProfileHash => ERROR_CODE_OFFSET + 2,
            GsdHubError::InvalidVerificationScore => ERROR_CODE_OFFSET + 3,
            GsdHubError::TreeFull => ERROR_CODE_OFFSET + 4,
            GsdHubError::InvalidTreeAuthority => ERROR_CODE_OFFSET + 5,
            GsdHubError::InvalidContributionData => ERROR_CODE_OFFSET + 6,
            GsdHubError::ScoreOverflow => ERROR_CODE_OFFSET + 7,
        }
    }

    /// The text shown to a caller for this error.
    pub fn message(&self) -> (m: &'static str)
        ensures
            m@ == self.spec_message(),
    {
        match self {
            GsdHubError::ProfileAlreadyExists => "Profile already exists",
            GsdHubError::Unauthorized => "Unauthorized",
            GsdHubError::InvalidProfileHash => "Invalid profile hash",
            GsdHubError::InvalidVerificationScore => "Verification score must be 0-10000",
            GsdHubError::TreeFull => "Contribution tree is full",
            GsdHubError::InvalidTreeAuthority => "Invalid tree authority",
            GsdHubError::InvalidContributionData => "Invalid contribution data",
            GsdHubError::ScoreOverflow => "Contribution score calculation overflow",
        }
    }
}

/// Failures of governance operations: rounds, ideas, deposits, delegations and votes.
#[derive(Clone, Copy, Debug, PartialEq, Eq, Structural)]
pub enum GovernanceError {
    /// Round is not in Open state.
    RoundNotOpen,
    /// Round is not in Voting state.
    RoundNotInVotingState,
    /// Round is already closed.
    AlreadyClosed,
    /// Transition too early -- deadline not reached.
    TooEarly,
    /// Submission period has ended.
    SubmissionPeriodEnded,
    /// Voting period has ended.
    VotingPeriodEnded,
    /// No tokens deposited.
    NoDeposit,
    /// Tokens not yet eligible for voting (7-day timelock).
    TokensNotYetEligible,
    /// Cannot withdraw while votes are active.
    ActiveVotesExist,
    /// Arithmetic overflow.
    Overflow,
    /// Unauthorized -- not the admin.
    UnauthorizedAdmin,
    /// Unauthorized veto -- not the veto authority.
    UnauthorizedVeto,
    /// Invalid timestamps -- end must be after start.
    InvalidTimestamps,
    /// Idea is not in a vetoable state.
    NotVetoable,
    /// Round still active -- cannot relinquish vote.
    RoundStillActive,
    /// Insufficient deposit amount.
    InsufficientDeposit,
    /// Civic Pass verification required for quadratic voting.
    HumanVerificationRequired,
    /// Delegation record does not match voter.
    InvalidDelegation,
    /// Delegation is not active.
    DelegationInactive,
    /// Cannot vote directly while voting power is delegated.
    VotingPowerDelegated,
    /// Active delegation already exists for this wallet.
    DelegationAlreadyExists,
    /// No active delegation found to revoke.
    NoDelegation,
    /// Gateway token is invalid or owned by wrong program.
    InvalidGatewayToken,
    /// Gateway token subject does not match voter.
    GatewayTokenOwnerMismatch,
    /// Gateway token network does not match configured gatekeeper.
    GatewayNetworkMismatch,
    /// Gateway token is not in Active state.
    GatewayTokenNotActive,
    /// Gateway token has expired.
    GatewayTokenExpired,
    /// Cannot delegate with active votes.
    CannotDelegateWithActiveVotes,
}

impl GovernanceError {
    /// Position of the variant in the enum, counted from zero.
    pub open spec fn spec_index(self) -> nat {
        match self {
            GovernanceError::RoundNotOpen => 0,
            GovernanceError::RoundNotInVotingState => 1,
            GovernanceError::AlreadyClosed => 2,
            GovernanceError::TooEarly => 3,
            GovernanceError::SubmissionPeriodEnded => 4,
            GovernanceError::VotingPeriodEnded => 5,
            GovernanceError::NoDeposit => 6,
            GovernanceError::TokensNotYetEligible => 7,
            GovernanceError::ActiveVotesExist => 8,
            GovernanceError::Overflow => 9,
            GovernanceError::UnauthorizedAdmin => 10,
            GovernanceError::UnauthorizedVeto => 11,
            GovernanceError::InvalidTimestamps => 12,
            GovernanceError::NotVetoable => 13,
            GovernanceError::RoundStillActive => 14,
            GovernanceError::InsufficientDeposit => 15,
            GovernanceError::HumanVerificationRequired => 16,
            GovernanceError::InvalidDelegation => 17,
            GovernanceError::DelegationInactive => 18,
            GovernanceError::VotingPowerDelegated => 19,
            GovernanceError::DelegationAlreadyExists => 20,
            GovernanceError::NoDelegation => 21,
            GovernanceError::InvalidGatewayToken => 22,
            GovernanceError::GatewayTokenOwnerMismatch => 23,
            GovernanceError::GatewayNetworkMismatch => 24,
            GovernanceError::GatewayTokenNotActive => 25,
            GovernanceError::GatewayTokenExpired => 26,
            GovernanceError::CannotDelegateWithActiveVotes => 27,
        }
    }

    /// The text shown to a caller for this error.
    pub open spec fn spec_message(self) -> Seq<char> {
        match self {
            GovernanceError::RoundNotOpen => "Round is not in Open state"@,
            GovernanceError::RoundNotInVotingState => "Round is not in Voting state"@,
            GovernanceError::AlreadyClosed => "Round is already closed"@,
            GovernanceError::TooEarly => "Transition too early -- deadline not reached"@,
            GovernanceError::SubmissionPeriodEnded => "Submission period has ended"@,
            GovernanceError::VotingPeriodEnded => "Voting period has ended"@,
            GovernanceError::NoDeposit => "No tokens deposited"@,
            GovernanceError::TokensNotYetEligible => "Tokens not yet eligible for voting (7-day timelock)"@,
            GovernanceError::ActiveVotesExist => "Cannot withdraw while votes are active"@,
            GovernanceError::Overflow => "Arithmetic overflow"@,
            GovernanceError::UnauthorizedAdmin => "Unauthorized -- not the admin"@,
            GovernanceError::UnauthorizedVeto => "Unauthorized veto -- not the veto authority"@,
            GovernanceError::InvalidTimestamps => "Invalid timestamps -- end must be after start"@,
            GovernanceError::NotVetoable => "Idea is not in a vetoable state"@,
            GovernanceError::RoundStillActive => "Round still active -- cannot relinquish vote"@,
            GovernanceError::InsufficientDeposit => "Insufficient deposit amount"@,
            GovernanceError::HumanVerificationRequired => "Civic Pass verification required for quadratic voting"@,
            GovernanceError::InvalidDelegation => "Delegation record does not match voter"@,
            GovernanceError::DelegationInactive => "Delegation is not active"@,
            GovernanceError::VotingPowerDelegated => "Cannot vote directly while voting power is delegated"@,
            GovernanceError::DelegationAlreadyExists => "Active delegation already exists for this wallet"@,
            GovernanceError::NoDelegation => "No active delegation found to revoke"@,
            GovernanceError::InvalidGatewayToken => "Gateway token is invalid or owned by wrong program"@,
            GovernanceError::GatewayTokenOwnerMismatch => "Gateway token subject does not match voter"@,
            GovernanceError::GatewayNetworkMismatch => "Gateway token network does not match configured gatekeeper"@,
            GovernanceError::GatewayTokenNotActive => "Gateway token is not in Active state"@,
            GovernanceError::GatewayTokenExpired => "Gateway token has expired"@,
            GovernanceError::CannotDelegateWithActiveVotes => "Cannot delegate with active votes"@,
        }
    }

    /// The number under which this error is reported: the offset plus the
    /// variant's position.
    pub fn code(&self) -> (c: u32)
        ensures
            c == ERROR_CODE_OFFSET + self.spec_index(),
    {
        match self {
            GovernanceError::RoundNotOpen => ERROR_CODE_OFFSET,
            GovernanceError::RoundNotInVotingState => ERROR_CODE_OFFSET + 1,
            GovernanceError::AlreadyClosed => ERROR_CODE_OFFSET + 2,
            GovernanceError::TooEarly => ERROR_CODE_OFFSET + 3,
            GovernanceError::SubmissionPeriodEnded => ERROR_CODE_OFFSET + 4,
            GovernanceError::VotingPeriodEnded => ERROR_CODE_OFFSET + 5,
            GovernanceError::NoDeposit => ERROR_CODE_OFFSET + 6,
            GovernanceError::TokensNotYetEligible => ERROR_CODE_OFFSET + 7,
            GovernanceError::ActiveVotesExist => ERROR_CODE_OFFSET + 8,
            GovernanceError::Overflow => ERROR_CODE_OFFSET + 9,
            GovernanceError::UnauthorizedAdmin => ERROR_CODE_OFFSET + 10,
            GovernanceError::UnauthorizedVeto => ERROR_CODE_OFFSET + 11,
            GovernanceError::InvalidTimestamps => ERROR_CODE_OFFSET + 12,
            GovernanceError::NotVetoable => ERROR_CODE_OFFSET + 13,
            GovernanceError::RoundStillActive => ERROR_CODE_OFFSET + 14,
            GovernanceError::InsufficientDeposit => ERROR_CODE_OFFSET + 15,
            GovernanceError::HumanVerificationRequired => ERROR_CODE_OFFSET + 16,
            GovernanceError::InvalidDelegation => ERROR_CODE_OFFSET + 17,
            GovernanceError::DelegationInactive => ERROR_CODE_OFFSET + 18,
            GovernanceError::VotingPowerDelegated => ERROR_CODE_OFFSET + 19,
            GovernanceError::DelegationAlreadyExists => ERROR_CODE_OFFSET + 20,
            GovernanceError::NoDelegation => ERROR_CODE_OFFSET + 21,
            GovernanceError::InvalidGatewayToken => ERROR_CODE_OFFSET + 22,
            GovernanceError::GatewayTokenOwnerMismatch => ERROR_CODE_OFFSET + 23,
            GovernanceError::GatewayNetworkMismatch => ERROR_CODE_OFFSET + 24,
            GovernanceError::GatewayTokenNotActive => ERROR_CODE_OFFSET + 25,
            GovernanceError::GatewayTokenExpired => ERROR_CODE_OFFSET + 26,
            GovernanceError::CannotDelegateWithActiveVotes => ERROR_CODE_OFFSET + 27,
        }
    }

    /// The text shown to a caller for this error.
    pub fn message(&self) -> (m: &'static str)
        ensures
            m@ == self.spec_message(),
    {
        match self {
            GovernanceError::RoundNotOpen => "Round is not in Open state",
            GovernanceError::RoundNotInVotingState => "Round is not in Voting state",
            GovernanceError::AlreadyClosed => "Round is already closed",
            GovernanceError::TooEarly => "Transition too early -- deadline not reached",
            GovernanceError::SubmissionPeriodEnded => "Submission period has ended",
            GovernanceError::VotingPeriodEnded => "Voting period has ended",
            GovernanceError::NoDeposit => "No tokens deposited",
            GovernanceError::TokensNotYetEligible => "Tokens not yet eligible for voting (7-day timelock)",
            GovernanceError::ActiveVotesExist => "Cannot withdraw while votes are active",
            GovernanceError::Overflow => "Arithmetic overflow",
            GovernanceError::UnauthorizedAdmin => "Unauthorized -- not the admin",
            GovernanceError::UnauthorizedVeto => "Unauthorized veto -- not the veto authority",
            GovernanceError::InvalidTimestamps => "Invalid timestamps -- end must be after start",
            GovernanceError::NotVetoable => "Idea is not in a vetoable state",
            GovernanceError::RoundStillActive => "Round still active -- cannot relinquish vote",
            GovernanceError::InsufficientDeposit => "Insufficient deposit amount",
            GovernanceError::HumanVerificationRequired => "Civic Pass verification required for quadratic voting",
            GovernanceError::InvalidDelegation => "Delegation record does not match voter",
            GovernanceError::DelegationInactive => "Delegation is not active",
            GovernanceError::VotingPowerDelegated => "Cannot vote directly while voting power is delegated",
            GovernanceError::DelegationAlreadyExists => "Active delegation already exists for this wallet",
            GovernanceError::NoDelegation => "No active delegation found to revoke",
            GovernanceError::InvalidGatewayToken => "Gateway token is invalid or owned by wrong program",
            GovernanceError::GatewayTokenOwnerMismatch => "Gateway token subject does not match voter",
            GovernanceError::GatewayNetworkMismatch => "Gateway token network does not match configured gatekeeper",
            GovernanceError::GatewayTokenNotActive => "Gateway token is not in Active state",
            GovernanceError::GatewayTokenExpired => "Gateway token has expired",
            GovernanceError::CannotDelegateWithActiveVotes => "Cannot delegate with active votes",
        }
    }
}

/// Failures of revenue recording, claiming and burning.
#[derive(Clone, Copy, Debug, PartialEq, Eq, Structural)]
pub enum RevenueError {
    /// Split ratios must sum to 10000 basis points.
    InvalidSplitRatios,
    /// Revenue amount below minimum threshold.
    BelowMinimumThreshold,
    /// Revenue event not in Recorded status.
    EventNotRecorded,
    /// Revenue event already completed.
    EventAlreadyCompleted,
    /// Contributor has no contribution score.
    NoContributionScore,
    /// Revenue share already claimed for this event.
    AlreadyClaimed,
    /// Claim calculation overflow.
    ClaimOverflow,
    /// Total contribution score is zero.
    DivisionByZero,
    /// Escrow balance insufficient for claim.
    InsufficientEscrowBalance,
    /// Not authorized to execute burn.
    UnauthorizedBurnAuthority,
    /// Burn already executed for this event.
    BurnAlreadyExecuted,
}

impl RevenueError {
    /// Position of the variant in the enum, counted from zero.
    pub open spec fn spec_index(self) -> nat {
        match self {
            RevenueError::InvalidSplitRatios => 0,
            RevenueError::BelowMinimumThreshold => 1,
            RevenueError::EventNotRecorded => 2,
            RevenueError::EventAlreadyCompleted => 3,
            RevenueError::NoContributionScore => 4,
            RevenueError::AlreadyClaimed => 5,
            RevenueError::ClaimOverflow => 6,
            RevenueError::DivisionByZero => 7,
            RevenueError::InsufficientEscrowBalance => 8,
            RevenueError::UnauthorizedBurnAuthority => 9,
            RevenueError::BurnAlreadyExecuted => 10,
        }
    }

    /// The text shown to a caller for this error.
    pub open spec fn spec_message(self) -> Seq<char> {
        match self {
            RevenueError::InvalidSplitRatios => "Split ratios must sum to 10000 basis points"@,
            RevenueError::BelowMinimumThreshold => "Revenue amount below minimum threshold"@,
            RevenueError::EventNotRecorded => "Revenue event not in Recorded status"@,
            RevenueError::EventAlreadyCompleted => "Revenue event already completed"@,
            RevenueError::NoContributionScore => "Contributor has no contribution score"@,
            RevenueError::AlreadyClaimed => "Revenue share already claimed for this event"@,
            RevenueError::ClaimOverflow => "Claim calculation overflow"@,
            RevenueError::DivisionByZero => "Total contribution score is zero"@,
            RevenueError::InsufficientEscrowBalance => "Escrow balance insufficient for claim"@,
            RevenueError::UnauthorizedBurnAuthority => "Not authorized to execute burn"@,
            RevenueError::BurnAlreadyExecuted => "Burn already executed for this event"@,
        }
    }

    /// The number under which this error is reported: the offset plus the
    /// variant's position.
    pub fn code(&self) -> (c: u32)
        ensures
            c == ERROR_CODE_OFFSET + self.spec_index(),
    {
        match self {
            RevenueError::InvalidSplitRatios => ERROR_CODE_OFFSET,
            RevenueError::BelowMinimumThreshold => ERROR_CODE_OFFSET + 1,
            RevenueError::EventNotRecorded => ERROR_CODE_OFFSET + 2,
            RevenueError::EventAlreadyCompleted => ERROR_CODE_OFFSET + 3,
            RevenueError::NoContributionScore => ERROR_CODE_OFFSET + 4,
            RevenueError::AlreadyClaimed => ERROR_CODE_OFFSET + 5,
            RevenueError::ClaimOverflow => ERROR_CODE_OFFSET + 6,
            RevenueError::DivisionByZero => ERROR_CODE_OFFSET + 7,
            RevenueError::InsufficientEscrowBalance => ERROR_CODE_OFFSET + 8,
            RevenueError::UnauthorizedBurnAuthority => ERROR_CODE_OFFSET + 9,
            RevenueError::BurnAlreadyExecuted => ERROR_CODE_OFFSET + 10,
        }
    }

    /// The text shown to a caller for this error.
    pub fn message(&self) -> (m: &'static str)
        ensures
            m@ == self.spec_message(),
    {
        match self {
            RevenueError::InvalidSplitRatios => "Split ratios must sum to 10000 basis points",
            RevenueError::BelowMinimumThreshold => "Revenue amount below minimum threshold",
            RevenueError::EventNotRecorded => "Revenue event not in Recorded status",
            RevenueError::EventAlreadyCompleted => "Revenue event already completed",
            RevenueError::NoContributionScore => "Contributor has no contribution score",
            RevenueError::AlreadyClaimed => "Revenue share already claimed for this event",
            RevenueError::ClaimOverflow => "Claim calculation overflow",
            RevenueError::DivisionByZero => "Total contribution score is zero",
            RevenueError::InsufficientEscrowBalance => "Escrow balance insufficient for claim",
            RevenueError::UnauthorizedBurnAuthority => "Not authorized to execute burn",
            RevenueError::BurnAlreadyExecuted => "Burn already executed for this event",
        }
    }
}

/// Failures of verification reports and peer review.
#[derive(Clone, Copy, Debug, PartialEq, Eq, Structural)]
pub enum VerificationError {
    /// Verification score must be 0-10000.
    InvalidVerificationScore,
    /// Confidence must be 0-10000.
    InvalidConfidence,
    /// Verification report already exists for the task.
    VerificationAlreadyExists,
    /// Report hash must be 32 bytes.
    InvalidReportHash,
    /// AI confidence below threshold -- peer review required.
    BelowConfidenceThreshold,
    /// A peer cannot review their own submission.
    ReviewerIsDeveloper,
    /// Peer review already submitted for this report.
    ReviewAlreadySubmitted,
    /// Not enough peer reviews for consensus.
    InsufficientReviewers,
    /// Peer review consensus not reached.
    ConsensusNotReached,
    /// Peer review period has expired.
    ReviewTimeout,
    /// Tier must be 1-3.
    InvalidTier,
    /// Verification weight parameters must sum to 10000 bps.
    WeightsMustSumTo10000,
    /// Not authorized to manage verification config.
    UnauthorizedVerificationAdmin,
}

impl VerificationError {
    /// Position of the variant in the enum, counted from zero.
    pub open spec fn spec_index(self) -> nat {
        match self {
            VerificationError::InvalidVerificationScore => 0,
            VerificationError::InvalidConfidence => 1,
            VerificationError::VerificationAlreadyExists => 2,
            VerificationError::InvalidReportHash => 3,
            VerificationError::BelowConfidenceThreshold => 4,
            VerificationError::ReviewerIsDeveloper => 5,
            VerificationError::ReviewAlreadySubmitted => 6,
            VerificationError::InsufficientReviewers => 7,
            VerificationError::ConsensusNotReached => 8,
            VerificationError::ReviewTimeout => 9,
            VerificationError::InvalidTier => 10,
            VerificationError::WeightsMustSumTo10000 => 11,
            VerificationError::UnauthorizedVerificationAdmin => 12,
        }
    }

    /// The text shown to a caller for this error.
    pub open spec fn spec_message(self) -> Seq<char> {
        match self {
            VerificationError::InvalidVerificationScore => "Verification score must be 0-10000"@,
            VerificationError::InvalidConfidence => "Confidence must be 0-10000"@,
            VerificationError::VerificationAlreadyExists => "Verification report already exists for the task"@,
            VerificationError::InvalidReportHash => "Report hash must be 32 bytes"@,
            VerificationError::BelowConfidenceThreshold => "AI confidence below threshold -- peer review required"@,
            VerificationError::ReviewerIsDeveloper => "A peer cannot review their own submission"@,
            VerificationError::ReviewAlreadySubmitted => "Peer review already submitted for this report"@,
            VerificationError::InsufficientReviewers => "Not enough peer reviews for consensus"@,
            VerificationError::ConsensusNotReached => "Peer review consensus not reached"@,
            VerificationError::ReviewTimeout => "Peer review period has expired"@,
            VerificationError::InvalidTier => "Tier must be 1-3"@,
            VerificationError::WeightsMustSumTo10000 => "Verification weight parameters must sum to 10000 bps"@,
            VerificationError::UnauthorizedVerificationAdmin => "Not authorized to manage verification config"@,
        }
    }

    /// The number under which this error is reported: the offset plus the
    /// variant's position.
    pub fn code(&self) -> (c: u32)
        ensures
            c == ERROR_CODE_OFFSET + self.spec_index(),
    {
        match self {
            VerificationError::InvalidVerificationScore => ERROR_CODE_OFFSET,
            VerificationError::InvalidConfidence => ERROR_CODE_OFFSET + 1,
            VerificationError::VerificationAlreadyExists => ERROR_CODE_OFFSET + 2,
            VerificationError::InvalidReportHash => ERROR_CODE_OFFSET + 3,
            VerificationError::BelowConfidenceThreshold => ERROR_CODE_OFFSET + 4,
            VerificationError::ReviewerIsDeveloper => ERROR_CODE_OFFSET + 5,
            VerificationError::ReviewAlreadySubmitted => ERROR_CODE_OFFSET + 6,
            VerificationError::InsufficientReviewers => ERROR_CODE_OFFSET + 7,
            VerificationError::ConsensusNotReached => ERROR_CODE_OFFSET + 8,
            VerificationError::ReviewTimeout => ERROR_CODE_OFFSET + 9,
            VerificationError::InvalidTier => ERROR_CODE_OFFSET + 10,
            VerificationError::WeightsMustSumTo10000 => ERROR_CODE_OFFSET + 11,
            VerificationError::UnauthorizedVerificationAdmin => ERROR_CODE_OFFSET + 12,
        }
    }

    /// The text shown to a caller for this error.
    pub fn message(&self) -> (m: &'static str)
        ensures
            m@ == self.spec_message(),
    {
        match self {
            VerificationError::InvalidVerificationScore => "Verification score must be 0-10000",
            VerificationError::InvalidConfidence => "Confidence must be 0-10000",
            VerificationError::VerificationAlreadyExists => "Verification report already exists for the task",
            VerificationError::InvalidReportHash => "Report hash must be 32 bytes",
            VerificationError::BelowConfidenceThreshold => "AI confidence below threshold -- peer review required",
            VerificationError::ReviewerIsDeveloper => "A peer cannot review their own submission",
            VerificationError::ReviewAlreadySubmitted => "Peer review already submitted for this report",
            VerificationError::InsufficientReviewers => "Not enough peer reviews for consensus",
            VerificationError::ConsensusNotReached => "Peer review consensus not reached",
            VerificationError::ReviewTimeout => "Peer review period has expired",
            VerificationError::InvalidTier => "Tier must be 1-3",
            VerificationError::WeightsMustSumTo10000 => "Verification weight parameters must sum to 10000 bps",
            VerificationError::UnauthorizedVerificationAdmin => "Not authorized to manage verification config",
        }
    }
}

/// Why an operation on the ledger fails.
#[derive(Clone, Copy, Debug, PartialEq, Eq, Structural)]
pub enum LedgerError {
    /// A record that the operation would create exists already.
    AccountAlreadyInUse,
    /// A record that the operation names does not exist.
    AccountNotInitialized,
    /// A governance rule turned the operation down.
    Governance(GovernanceError),
}

} // verus!
