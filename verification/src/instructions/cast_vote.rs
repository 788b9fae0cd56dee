use vstd::prelude::*;

use crate::errors::GovernanceError;
use crate::layout::{read_pubkey, read_u64_le, spec_u64_le};
use crate::state::delegation_record::DelegationRecord;
use crate::state::governance_config::GovernanceConfig;
use crate::state::idea::Idea;
use crate::state::idea_round::{IdeaRound, RoundStatus};
use crate::state::pubkey::Pubkey;
use crate::state::vote_deposit::VoteDeposit;
use crate::state::vote_record::{VoteChoice, VoteRecord};

verus! {

/// `r` is the integer square root of `n`: the largest integer whose square
/// does not exceed `n`.
pub open spec fn is_integer_sqrt(n: int, r: int) -> bool {
    0 <= r && r * r <= n < (r + 1) * (r + 1)
}

/// One step of Newton's iteration for the square root of `n`, from the
/// estimate `x`: the rounded-down mean of `x` and `n / x`.
pub open spec fn newton_step(n: int, x: int) -> int {
    (x + n / x) / 2
}

/// A Newton step from a positive estimate never falls below the integer
/// square root.
proof fn lemma_newton_step_stays_above(n: int, x: int)
    requires
        0 <= n,
        0 < x,
    ensures
        0 <= newton_step(n, x),
        n < (newton_step(n, x) + 1) * (newton_step(n, x) + 1),
{
    let q = n / x;
    let s = (x + q) / 2;
    assert(0 <= q && x * q <= n < x * (q + 1)) by (nonlinear_arith)
        requires
            0 <= n,
            0 < x,
            q == n / x,
    ;
    assert(2 * (s + 1) >= x + q + 1);
    assert((x + q + 1) * (x + q + 1) >= 4 * (x * (q + 1))) by (nonlinear_arith);
    assert(4 * ((s + 1) * (s + 1)) >= (x + q + 1) * (x + q + 1)) by (nonlinear_arith)
        requires
            2 * (s + 1) >= x + q + 1,
            x + q + 1 >= 0,
    ;
}

/// When a Newton step no longer decreases the estimate, the estimate's square
/// does not exceed `n`.
proof fn lemma_newton_fixpoint(n: int, x: int)
    requires
        0 <= n,
        0 < x,
        newton_step(n, x) >= x,
    ensures
        x * x <= n,
{
    let q = n / x;
    assert(q >= x);
    assert(x * q <= n) by (nonlinear_arith)
        requires
            0 <= n,
            0 < x,
            q == n / x,
    ;
    assert(x * x <= x * q) by (nonlinear_arith)
        requires
            0 < x,
            x <= q,
    ;
}

/// A number that meets the definition is the integer square root.
pub proof fn lemma_integer_sqrt_is(n: nat, r: nat)
    requires
        is_integer_sqrt(n as int, r as int),
    ensures
        integer_sqrt(n) == r,
{
    let c = integer_sqrt(n);
    assert(is_integer_sqrt(n as int, c as int));
    lemma_integer_sqrt_unique(n as int, c as int, r as int);
}

/// The integer square root is unique.
pub proof fn lemma_integer_sqrt_unique(n: int, r1: int, r2: int)
    requires
        is_integer_sqrt(n, r1),
        is_integer_sqrt(n, r2),
    ensures
        r1 == r2,
{
    if r1 < r2 {
        assert((r1 + 1) * (r1 + 1) <= r2 * r2) by (nonlinear_arith)
            requires
                0 <= r1,
                r1 + 1 <= r2,
        ;
    } else if r2 < r1 {
        assert((r2 + 1) * (r2 + 1) <= r1 * r1) by (nonlinear_arith)
            requires
                0 <= r2,
                r2 + 1 <= r1,
        ;
    }
}

/// The integer square root of `n`.
pub open spec fn integer_sqrt(n: nat) -> nat {
    choose|r: nat| is_integer_sqrt(n as int, r as int)
}

/// Integer square root by Newton's method: the weight that quadratic voting
/// gives to `n` tokens.
///
/// Starts from the estimate `n` and replaces it by the rounded-down mean of
/// the estimate and `n` divided by it, until the estimate stops decreasing.
pub fn isqrt(n: u64) -> (r: u64)
    ensures
        r == integer_sqrt(n as nat),
        is_integer_sqrt(n as int, r as int),
        r as int * r as int <= n as int,
        (n as int) < (r as int + 1) * (r as int + 1),
{
    if n == 0 {
        proof {
            lemma_integer_sqrt_is(0, 0);
        }
        return 0;
    }
    if n == 1 {
        proof {
            lemma_integer_sqrt_is(1, 1);
        }
        return 1;
    }
    let mut x: u64 = n;
    let mut y: u64 = x / 2 + x % 2;
    assert(y as int == newton_step(n as int, x as int)) by (nonlinear_arith)
        requires
            x == n,
            n >= 2,
            y as int == x as int / 2 + x as int % 2,
    ;
    assert((n as int) < (x as int + 1) * (x as int + 1)) by (nonlinear_arith)
        requires
            x == n,
            n >= 2,
    ;
    while y < x
        invariant
            n >= 2,
            0 < x <= n,
            y as int == newton_step(n as int, x as int),
            (n as int) < (x as int + 1) * (x as int + 1),
        decreases x,
    {
        proof {
            lemma_newton_step_stays_above(n as int, x as int);
            assert(y > 0) by (nonlinear_arith)
                requires
                    (n as int) < (y as int + 1) * (y as int + 1),
                    n >= 2,
                    y >= 0,
            ;
        }
        x = y;
        let q: u64 = n / x;
        proof {
            assert(q as int * x as int <= n as int) by (nonlinear_arith)
                requires
                    q as int == n as int / x as int,
                    x > 0,
                    n >= 0,
            ;
            if q >= 2 && x >= 2 {
                assert(x as int + q as int <= q as int * x as int) by (nonlinear_arith)
                    requires
                        q >= 2,
                        x >= 2,
                ;
            } else if x == 1 {
                assert((x as int + 1) * (x as int + 1) == 4) by (nonlinear_arith)
                    requires
                        x == 1,
                ;
                assert(q <= n);
            }
        }
        y = (x + q) / 2;
    }
    proof {
        lemma_newton_fixpoint(n as int, x as int);
        lemma_integer_sqrt_is(n as nat, x as nat);
    }
    x
}

/// The account of a proof of personhood as a caller hands it in: the program
/// that owns it and its stored bytes.
pub struct GatewayAccount {
    pub owner: Pubkey,
    pub data: Vec<u8>,
}

/// What the engine reads of a proof of personhood.
#[derive(Clone, Copy, Debug)]
pub struct GatewayToken {
    /// The identity that the proof is bound to
    pub subject: Pubkey,
    /// The network that issued the proof
    pub network: Pubkey,
    /// State code: zero for an active proof
    pub state: u64,
    /// Unix time after which the proof no longer holds; zero for none
    pub expiry: u64,
}

/// Bytes of the address of the identity-gateway program, which owns every
/// proof of personhood (`gatbGF9DvLAw3kWyn1EmH5Nh1Sqp8sTukF7yaQpSc71` in base 58).
pub const CIVIC_GATEWAY_PROGRAM: [u8; 32] = [
    10, 35, 248, 116, 144, 155, 66, 88, 111, 80, 218, 210, 92, 140, 250, 78,
    18, 132, 30, 111, 67, 67, 135, 66, 238, 8, 217, 162, 170, 85, 74, 192,
];

impl GatewayToken {
    /// Least length of a stored proof: version (1), subject (32), network
    /// (32), state (8), expiry (8).
    pub const MIN_LEN: usize = 81;

    /// The proof that `data` holds, if it is long enough to hold one: after
    /// one version byte come the subject, the network, the state code and the
    /// expiry, the two integers little-endian.
    pub open spec fn spec_parse(data: Seq<u8>) -> Option<GatewayToken> {
        if data.len() >= GatewayToken::MIN_LEN {
            Some(
                GatewayToken {
                    subject: Pubkey::spec_from_seq(data.subrange(1, 33)),
                    network: Pubkey::spec_from_seq(data.subrange(33, 65)),
                    state: spec_u64_le(data.subrange(65, 73)),
                    expiry: spec_u64_le(data.subrange(73, 81)),
                },
            )
        } else {
            None
        }
    }

    /// Reads a stored proof of personhood, checking the length first.
    pub fn parse(data: &[u8]) -> (token: Option<GatewayToken>)
        ensures
            token == GatewayToken::spec_parse(data@),
    {
        if data.len() < GatewayToken::MIN_LEN {
            return None;
        }
        Some(
            GatewayToken {
                subject: read_pubkey(data, 1),
                network: read_pubkey(data, 33),
                state: read_u64_le(data, 65),
                expiry: read_u64_le(data, 73),
            },
        )
    }

    /// Whether the proof has run out at the time `now`: its expiry lies before
    /// `now`. A proof with expiry zero never runs out.
    pub open spec fn expired(self, now: i64) -> bool {
        self.expiry > 0 && (self.expiry as int) < (now as int)
    }

    /// Why the proof does not admit `voter` under the network `network` at
    /// the time `now`, or `None` if it does. The checks come in this order:
    /// subject, network, state, expiry.
    pub open spec fn spec_check(self, voter: Pubkey, network: Pubkey, now: i64) -> Option<
        GovernanceError,
    > {
        if self.subject != voter {
            Some(GovernanceError::GatewayTokenOwnerMismatch)
        } else if self.network != network {
            Some(GovernanceError::GatewayNetworkMismatch)
        } else if self.state != 0 {
            Some(GovernanceError::GatewayTokenNotActive)
        } else if self.expired(now) {
            Some(GovernanceError::GatewayTokenExpired)
        } else {
            None
        }
    }

    /// Checks that the proof is bound to `voter`, was issued by `network`, is
    /// active and has not run out at `now`.
    pub fn check(&self, voter: &Pubkey, network: &Pubkey, now: i64) -> (r: Result<
        (),
        GovernanceError,
    >)
        ensures
            r is Ok <==> self.spec_check(*voter, *network, now) is None,
            r is Err ==> self.spec_check(*voter, *network, now) == Some(r->Err_0),
    {
        if self.subject != *voter {
            return Err(GovernanceError::GatewayTokenOwnerMismatch);
        }
        if self.network != *network {
            return Err(GovernanceError::GatewayNetworkMismatch);
        }
        if self.state != 0 {
            return Err(GovernanceError::GatewayTokenNotActive);
        }
        if self.expiry > 0 && now > 0 && self.expiry < now as u64 {
            return Err(GovernanceError::GatewayTokenExpired);
        }
        Ok(())
    }
}

/// Why the sybil check turns `voter` down, or `None` if it admits them. It
/// admits a proof that is present, owned by the identity-gateway program,
/// long enough to read, and that passes `GatewayToken::spec_check`.
pub open spec fn sybil_gate_error(
    gateway: Option<GatewayAccount>,
    voter: Pubkey,
    network: Pubkey,
    now: i64,
) -> Option<GovernanceError> {
    match gateway {
        None => Some(GovernanceError::HumanVerificationRequired),
        Some(account) => {
            if account.owner@ != CIVIC_GATEWAY_PROGRAM@ {
                Some(GovernanceError::InvalidGatewayToken)
            } else {
                match GatewayToken::spec_parse(account.data@) {
                    None => Some(GovernanceError::InvalidGatewayToken),
                    Some(token) => token.spec_check(voter, network, now),
                }
            }
        },
    }
}

/// The sybil gate of quadratic voting: admits `voter` only with a valid proof
/// of personhood issued by `network`.
pub fn verify_sybil_gate(
    gateway: &Option<GatewayAccount>,
    voter: &Pubkey,
    network: &Pubkey,
    now: i64,
) -> (r: Result<(), GovernanceError>)
    ensures
        r is Ok <==> sybil_gate_error(*gateway, *voter, *network, now) is None,
        r is Err ==> sybil_gate_error(*gateway, *voter, *network, now) == Some(r->Err_0),
{
    match gateway {
        None => Err(GovernanceError::HumanVerificationRequired),
        Some(account) => {
            let civic_gateway = Pubkey::new_from_array(CIVIC_GATEWAY_PROGRAM);
            if account.owner != civic_gateway {
                proof {
                    if account.owner@ == CIVIC_GATEWAY_PROGRAM@ {
                        Pubkey::lemma_view_injective(account.owner, civic_gateway);
                    }
                }
                return Err(GovernanceError::InvalidGatewayToken);
            }
            match GatewayToken::parse(account.data.as_slice()) {
                None => Err(GovernanceError::InvalidGatewayToken),
                Some(token) => token.check(voter, network, now),
            }
        },
    }
}

/// The delegation records among the first `n` accounts that a caller hands in
/// as candidates, in their order. Bytes that are not a stored delegation
/// record are passed over.
pub open spec fn spec_parse_candidates(accounts: Seq<Vec<u8>>, n: int) -> Seq<DelegationRecord>
    decreases n,
{
    if n <= 0 {
        Seq::empty()
    } else {
        match DelegationRecord::spec_try_deserialize(accounts[n - 1]@) {
            Some(record) => spec_parse_candidates(accounts, n - 1).push(record),
            None => spec_parse_candidates(accounts, n - 1),
        }
    }
}

/// Reads the candidate delegation records out of the stored bytes of the
/// accounts that a caller hands in. Each account is read on its own, with its
/// length and its tag checked; what is not a delegation record is passed
/// over.
pub fn parse_candidates(accounts: &Vec<Vec<u8>>) -> (records: Vec<DelegationRecord>)
    ensures
        records@ == spec_parse_candidates(accounts@, accounts@.len() as int),
{
    let mut records: Vec<DelegationRecord> = Vec::new();
    let mut n: usize = 0;
    while n < accounts.len()
        invariant
            n <= accounts@.len(),
            records@ == spec_parse_candidates(accounts@, n as int),
        decreases accounts@.len() - n,
    {
        match DelegationRecord::try_deserialize(accounts[n].as_slice()) {
            Some(record) => {
                records.push(record);
            },
            None => {},
        }
        n += 1;
    }
    records
}

/// Whether `record` lends its amount to `voter`: it is active, names `voter`
/// as its delegate, and is not `voter`'s own.
pub open spec fn counts_for(voter: Pubkey, record: DelegationRecord) -> bool {
    record.is_active && record.delegate == voter && record.delegator != voter
}

/// Whether a record of the same delegator as the candidate at `i` already
/// counts for `voter` earlier in the list.
pub open spec fn counted_before(voter: Pubkey, candidates: Seq<DelegationRecord>, i: int) -> bool {
    exists|j: int|
        0 <= j < i && counts_for(voter, #[trigger] candidates[j]) && candidates[j].delegator
            == candidates[i].delegator
}

/// What the candidate at `i` adds to `voter`'s power: its amount if it counts
/// for `voter` and no earlier candidate of the same delegator does, else
/// nothing.
pub open spec fn contribution(voter: Pubkey, candidates: Seq<DelegationRecord>, i: int) -> nat {
    if counts_for(voter, candidates[i]) && !counted_before(voter, candidates, i) {
        candidates[i].delegated_amount as nat
    } else {
        0
    }
}

/// The power delegated to `voter` by the first `n` candidates: each delegator
/// whose record counts is counted once, however often the record is listed.
pub open spec fn delegated_power(voter: Pubkey, candidates: Seq<DelegationRecord>, n: int) -> nat
    decreases n,
{
    if n <= 0 {
        0
    } else {
        delegated_power(voter, candidates, n - 1) + contribution(voter, candidates, n - 1)
    }
}

/// The power delegated to `voter` by all the candidates.
pub open spec fn delegated_to(voter: Pubkey, candidates: Seq<DelegationRecord>) -> nat {
    delegated_power(voter, candidates, candidates.len() as int)
}

/// Whether the list holds an active record by which `voter` has delegated
/// their own power away.
pub open spec fn has_active_outgoing(voter: Pubkey, candidates: Seq<DelegationRecord>) -> bool {
    exists|i: int|
        0 <= i < candidates.len() && (#[trigger] candidates[i]).delegator == voter
            && candidates[i].is_active
}

/// The voting power of `voter`: their own stake and what is delegated to them.
pub open spec fn voting_power(
    voter: Pubkey,
    own_deposit_amount: u64,
    candidates: Seq<DelegationRecord>,
) -> nat {
    own_deposit_amount as nat + delegated_to(voter, candidates)
}

/// The weight of a vote backed by `total_tokens`: their integer square root
/// under quadratic voting, else the tokens themselves.
pub open spec fn vote_weight(total_tokens: nat, quadratic_enabled: bool) -> nat {
    if quadratic_enabled {
        integer_sqrt(total_tokens)
    } else {
        total_tokens
    }
}

/// Why `voter` gets no weight, or `None` if they get one. Under quadratic
/// voting the sybil gate comes first; then a voter who has delegated their
/// power away is turned down; then the voting power must fit 64 bits.
pub open spec fn compute_weight_error(
    voter: Pubkey,
    own_deposit_amount: u64,
    candidates: Seq<DelegationRecord>,
    quadratic_enabled: bool,
    gateway: Option<GatewayAccount>,
    network: Pubkey,
    now: i64,
) -> Option<GovernanceError> {
    if quadratic_enabled && sybil_gate_error(gateway, voter, network, now) is Some {
        sybil_gate_error(gateway, voter, network, now)
    } else if has_active_outgoing(voter, candidates) {
        Some(GovernanceError::VotingPowerDelegated)
    } else if voting_power(voter, own_deposit_amount, candidates) > u64::MAX {
        Some(GovernanceError::Overflow)
    } else {
        None
    }
}

/// The delegated power only grows with the number of candidates read.
pub proof fn lemma_delegated_power_monotonic(
    voter: Pubkey,
    candidates: Seq<DelegationRecord>,
    n: int,
    m: int,
)
    requires
        n <= m,
    ensures
        delegated_power(voter, candidates, n) <= delegated_power(voter, candidates, m),
    decreases m - n,
{
    if n < m {
        lemma_delegated_power_monotonic(voter, candidates, n, m - 1);
    }
}

/// Resolves the weight of `voter`'s vote from their own stake and the
/// candidate delegation records.
///
/// Every candidate is checked on its own: only an active record that names
/// `voter` as delegate adds its amount, and each delegator adds it once.
/// Other records are passed over, but for `voter`'s own record, which must
/// not be active.
pub fn compute_weight(
    voter: &Pubkey,
    own_deposit_amount: u64,
    active_delegations: &Vec<DelegationRecord>,
    quadratic_enabled: bool,
    gateway: &Option<GatewayAccount>,
    network: &Pubkey,
    now: i64,
) -> (r: Result<u64, GovernanceError>)
    ensures
        match r {
            Ok(weight) => compute_weight_error(
                *voter,
                own_deposit_amount,
                active_delegations@,
                quadratic_enabled,
                *gateway,
                *network,
                now,
            ) is None && weight == vote_weight(
                voting_power(*voter, own_deposit_amount, active_delegations@),
                quadratic_enabled,
            ),
            Err(e) => compute_weight_error(
                *voter,
                own_deposit_amount,
                active_delegations@,
                quadratic_enabled,
                *gateway,
                *network,
                now,
            ) == Some(e),
        },
{
    if quadratic_enabled {
        match verify_sybil_gate(gateway, voter, network, now) {
            Err(e) => {
                return Err(e);
            },
            Ok(()) => {},
        }
    }
    let n = active_delegations.len();
    let mut k: usize = 0;
    while k < n
        invariant
            k <= n == active_delegations@.len(),
            quadratic_enabled ==> sybil_gate_error(*gateway, *voter, *network, now) is None,
            forall|i: int|
                0 <= i < k ==> !((#[trigger] active_delegations@[i]).delegator == *voter
                    && active_delegations@[i].is_active),
        decreases n - k,
    {
        if active_delegations[k].delegator == *voter && active_delegations[k].is_active {
            return Err(GovernanceError::VotingPowerDelegated);
        }
        k += 1;
    }
    let mut total_tokens: u64 = own_deposit_amount;
    let mut i: usize = 0;
    while i < n
        invariant
            i <= n == active_delegations@.len(),
            quadratic_enabled ==> sybil_gate_error(*gateway, *voter, *network, now) is None,
            !has_active_outgoing(*voter, active_delegations@),
            total_tokens as nat == own_deposit_amount as nat + delegated_power(
                *voter,
                active_delegations@,
                i as int,
            ),
        decreases n - i,
    {
        let record = &active_delegations[i];
        if record.is_active && record.delegate == *voter && record.delegator != *voter {
            let mut seen = false;
            let mut j: usize = 0;
            while j < i
                invariant
                    j <= i < n == active_delegations@.len(),
                    *record == active_delegations@[i as int],
                    seen == counted_before_upto(*voter, active_delegations@, i as int, j as int),
                decreases i - j,
            {
                let earlier = &active_delegations[j];
                if earlier.is_active && earlier.delegate == *voter && earlier.delegator != *voter
                    && earlier.delegator == record.delegator {
                    seen = true;
                }
                j += 1;
            }
            if !seen {
                match total_tokens.checked_add(record.delegated_amount) {
                    Some(sum) => {
                        total_tokens = sum;
                    },
                    None => {
                        proof {
                            lemma_delegated_power_monotonic(
                                *voter,
                                active_delegations@,
                                i + 1,
                                n as int,
                            );
                        }
                        return Err(GovernanceError::Overflow);
                    },
                }
            }
        }
        i += 1;
    }
    if quadratic_enabled {
        Ok(isqrt(total_tokens))
    } else {
        Ok(total_tokens)
    }
}

/// `counted_before`, with the search cut off at `upto`.
pub open spec fn counted_before_upto(
    voter: Pubkey,
    candidates: Seq<DelegationRecord>,
    i: int,
    upto: int,
) -> bool {
    exists|j: int|
        0 <= j < upto && counts_for(voter, #[trigger] candidates[j]) && candidates[j].delegator
            == candidates[i].delegator
}

/// The records that a vote reads and changes.
pub struct CastVote {
    /// The idea voted on
    pub idea: Idea,
    /// Address of the idea
    pub idea_key: Pubkey,
    /// The round that the idea belongs to
    pub round: IdeaRound,
    /// Address of the round
    pub round_key: Pubkey,
    /// The voter's stake
    pub vote_deposit: VoteDeposit,
    pub governance_config: GovernanceConfig,
    /// The voter's proof of personhood; read only under quadratic voting
    pub gateway_token: Option<GatewayAccount>,
    /// Who votes
    pub voter: Pubkey,
    /// Bump of the vote record's address
    pub vote_record_bump: u8,
}

impl CastVote {
    /// The voter's voting power over the candidate records.
    pub open spec fn power(self, candidates: Seq<DelegationRecord>) -> nat {
        voting_power(self.voter, self.vote_deposit.deposited_amount, candidates)
    }

    /// The weight of the vote.
    pub open spec fn weight(self, candidates: Seq<DelegationRecord>) -> nat {
        vote_weight(self.power(candidates), self.governance_config.quadratic_voting_enabled)
    }

    /// Why the vote is turned down at the time `now`, or `None` if it is
    /// taken. The checks come in this order: the round is in its voting
    /// state; the voter has a stake; the stake's timelock has passed; the
    /// voting period has not ended; the voter gets a weight
    /// (`compute_weight_error`); the weight fits the idea's counters and one
    /// more active vote fits the stake's.
    pub open spec fn spec_error(
        self,
        candidates: Seq<DelegationRecord>,
        vote: VoteChoice,
        now: i64,
    ) -> Option<GovernanceError> {
        let weight_error = compute_weight_error(
            self.voter,
            self.vote_deposit.deposited_amount,
            candidates,
            self.governance_config.quadratic_voting_enabled,
            self.gateway_token,
            self.governance_config.civic_gatekeeper_network,
            now,
        );
        if self.round.status != RoundStatus::Voting {
            Some(GovernanceError::RoundNotInVotingState)
        } else if self.vote_deposit.deposited_amount == 0 {
            Some(GovernanceError::NoDeposit)
        } else if !self.vote_deposit.eligible(now) {
            Some(GovernanceError::TokensNotYetEligible)
        } else if now >= self.round.voting_end {
            Some(GovernanceError::VotingPeriodEnded)
        } else if weight_error is Some {
            weight_error
        } else if !self.idea.can_tally(vote, self.weight(candidates) as u64)
            || self.vote_deposit.active_votes == u32::MAX {
            Some(GovernanceError::Overflow)
        } else {
            None
        }
    }

    /// The receipt of the vote.
    pub open spec fn spec_record(
        self,
        candidates: Seq<DelegationRecord>,
        vote: VoteChoice,
        now: i64,
    ) -> VoteRecord {
        VoteRecord {
            voter: self.voter,
            idea: self.idea_key,
            round: self.round_key,
            bump: self.vote_record_bump,
            vote,
            weight: self.weight(candidates) as u64,
            voted_at: now,
        }
    }

    /// The records after the vote is taken: the weight is added to the idea's
    /// counter for the choice, the idea counts one voter more and the stake
    /// one active vote more.
    pub open spec fn spec_after(self, candidates: Seq<DelegationRecord>, vote: VoteChoice) -> CastVote {
        CastVote {
            idea: self.idea.spec_tally(vote, self.weight(candidates) as u64),
            vote_deposit: VoteDeposit {
                active_votes: (self.vote_deposit.active_votes + 1) as u32,
                ..self.vote_deposit
            },
            ..self
        }
    }
}

/// Casts `voter`'s vote on the idea at the time `now` and returns its receipt.
///
/// `remaining_accounts` are the candidate delegation records that the caller
/// hands in; see `compute_weight`. Either the vote is taken and every record
/// changes as `spec_after` says, or it is turned down and nothing changes.
///
/// The records are taken as they are handed in. That the idea belongs to the
/// round and the stake to the voter, and that the voter has no receipt for
/// the idea yet, is for whoever looks the records up: see
/// `crate::program::cast_vote`.
pub fn handler(
    ctx: &mut CastVote,
    remaining_accounts: &Vec<DelegationRecord>,
    vote: VoteChoice,
    now: i64,
) -> (r: Result<VoteRecord, GovernanceError>)
    ensures
        match r {
            Ok(record) => {
                &&& old(ctx).spec_error(remaining_accounts@, vote, now) is None
                &&& record == old(ctx).spec_record(remaining_accounts@, vote, now)
                &&& *final(ctx) == old(ctx).spec_after(remaining_accounts@, vote)
            },
            Err(e) => {
                &&& old(ctx).spec_error(remaining_accounts@, vote, now) == Some(e)
                &&& *final(ctx) == *old(ctx)
            },
        },
        final(ctx).idea.total_weight() >= old(ctx).idea.total_weight(),
{
    if ctx.round.status != RoundStatus::Voting {
        return Err(GovernanceError::RoundNotInVotingState);
    }
    if ctx.vote_deposit.deposited_amount == 0 {
        return Err(GovernanceError::NoDeposit);
    }
    if now < ctx.vote_deposit.eligible_at {
        return Err(GovernanceError::TokensNotYetEligible);
    }
    if now >= ctx.round.voting_end {
        return Err(GovernanceError::VotingPeriodEnded);
    }
    let weight = match compute_weight(
        &ctx.voter,
        ctx.vote_deposit.deposited_amount,
        remaining_accounts,
        ctx.governance_config.quadratic_voting_enabled,
        &ctx.gateway_token,
        &ctx.governance_config.civic_gatekeeper_network,
        now,
    ) {
        Ok(weight) => weight,
        Err(e) => {
            return Err(e);
        },
    };
    let tallied = match vote {
        VoteChoice::Yes => ctx.idea.yes_weight.checked_add(weight),
        VoteChoice::No => ctx.idea.no_weight.checked_add(weight),
        VoteChoice::Abstain => ctx.idea.abstain_weight.checked_add(weight),
    };
    let tallied = match tallied {
        Some(t) => t,
        None => {
            return Err(GovernanceError::Overflow);
        },
    };
    let voter_count = match ctx.idea.voter_count.checked_add(1) {
        Some(c) => c,
        None => {
            return Err(GovernanceError::Overflow);
        },
    };
    let active_votes = match ctx.vote_deposit.active_votes.checked_add(1) {
        Some(c) => c,
        None => {
            return Err(GovernanceError::Overflow);
        },
    };
    let record = VoteRecord {
        voter: ctx.voter,
        idea: ctx.idea_key,
        round: ctx.round_key,
        bump: ctx.vote_record_bump,
        vote,
        weight,
        voted_at: now,
    };
    match vote {
        VoteChoice::Yes => {
            ctx.idea.yes_weight = tallied;
        },
        VoteChoice::No => {
            ctx.idea.no_weight = tallied;
        },
        VoteChoice::Abstain => {
            ctx.idea.abstain_weight = tallied;
        },
    }
    ctx.idea.voter_count = voter_count;
    ctx.vote_deposit.active_votes = active_votes;
    Ok(record)
}

/// The power delegated by the first `n` candidates does not depend on what
/// follows them in the list.
pub proof fn lemma_delegated_power_prefix(
    voter: Pubkey,
    candidates: Seq<DelegationRecord>,
    longer: Seq<DelegationRecord>,
    n: int,
)
    requires
        0 <= n <= candidates.len() <= longer.len(),
        forall|i: int| 0 <= i < candidates.len() ==> longer[i] == candidates[i],
    ensures
        delegated_power(voter, longer, n) == delegated_power(voter, candidates, n),
    decreases n,
{
    if n > 0 {
        lemma_delegated_power_prefix(voter, candidates, longer, n - 1);
        let i = n - 1;
        if counted_before(voter, candidates, i) {
            let j = choose|j: int|
                0 <= j < i && counts_for(voter, #[trigger] candidates[j]) && candidates[j].delegator
                    == candidates[i].delegator;
            assert(counts_for(voter, longer[j]) && longer[j].delegator == longer[i].delegator);
        }
        if counted_before(voter, longer, i) {
            let j = choose|j: int|
                0 <= j < i && counts_for(voter, #[trigger] longer[j]) && longer[j].delegator
                    == longer[i].delegator;
            assert(counts_for(voter, candidates[j]) && candidates[j].delegator
                == candidates[i].delegator);
        }
    }
}

/// A record that is listed again adds nothing: the delegated power is the
/// same however often a delegator's record appears among the candidates.
pub proof fn lemma_repeated_record_counts_once(
    voter: Pubkey,
    candidates: Seq<DelegationRecord>,
    record: DelegationRecord,
)
    requires
        exists|j: int| 0 <= j < candidates.len() && candidates[j] == record,
    ensures
        delegated_to(voter, candidates.push(record)) == delegated_to(voter, candidates),
{
    let longer = candidates.push(record);
    let n = candidates.len() as int;
    lemma_delegated_power_prefix(voter, candidates, longer, n);
    if counts_for(voter, record) {
        let j = choose|j: int| 0 <= j < candidates.len() && candidates[j] == record;
        assert(counts_for(voter, longer[j]) && longer[j].delegator == longer[n].delegator);
        assert(counted_before(voter, longer, n));
    }
}

/// A record that counts for `voter` adds its amount once, however many copies
/// of it make up the list of candidates.
pub proof fn lemma_copies_count_once(
    voter: Pubkey,
    candidates: Seq<DelegationRecord>,
    record: DelegationRecord,
)
    requires
        candidates.len() > 0,
        forall|i: int| 0 <= i < candidates.len() ==> candidates[i] == record,
        counts_for(voter, record),
    ensures
        delegated_to(voter, candidates) == record.delegated_amount,
    decreases candidates.len(),
{
    let shorter = candidates.drop_last();
    assert(candidates =~= shorter.push(record));
    if shorter.len() == 0 {
        lemma_new_record_adds_its_amount(voter, shorter, record);
        assert(delegated_to(voter, shorter) == 0);
    } else {
        lemma_copies_count_once(voter, shorter, record);
        assert(shorter[0] == record);
        lemma_repeated_record_counts_once(voter, shorter, record);
    }
}

/// A delegator's record that counts for `voter`, listed for the first time,
/// adds exactly its delegated amount to `voter`'s power.
pub proof fn lemma_new_record_adds_its_amount(
    voter: Pubkey,
    candidates: Seq<DelegationRecord>,
    record: DelegationRecord,
)
    requires
        counts_for(voter, record),
        forall|j: int|
            0 <= j < candidates.len() ==> (#[trigger] candidates[j]).delegator != record.delegator,
    ensures
        delegated_to(voter, candidates.push(record)) == delegated_to(voter, candidates)
            + record.delegated_amount,
{
    let longer = candidates.push(record);
    let n = candidates.len() as int;
    lemma_delegated_power_prefix(voter, candidates, longer, n);
    assert(!counted_before(voter, longer, n));
}

/// A voter whose own active delegation record is among the candidates is
/// always turned down: they cannot vote while their power is delegated.
pub proof fn lemma_delegator_cannot_vote(
    ctx: CastVote,
    candidates: Seq<DelegationRecord>,
    vote: VoteChoice,
    now: i64,
)
    requires
        has_active_outgoing(ctx.voter, candidates),
    ensures
        ctx.spec_error(candidates, vote, now) is Some,
{
}

/// A vote that is taken adds its weight to the idea's total and takes
/// nothing away from any counter.
pub proof fn lemma_vote_adds_weight(idea: Idea, vote: VoteChoice, weight: u64)
    requires
        idea.can_tally(vote, weight),
        idea.total_weight() + weight <= u64::MAX,
    ensures
        idea.spec_tally(vote, weight).total_weight() == idea.total_weight() + weight,
        idea.spec_tally(vote, weight).yes_weight >= idea.yes_weight,
        idea.spec_tally(vote, weight).no_weight >= idea.no_weight,
        idea.spec_tally(vote, weight).abstain_weight >= idea.abstain_weight,
{
}

} // verus!
