use vstd::prelude::*;

use crate::errors::{GovernanceError, LedgerError};
use crate::instructions::cast_vote::{CastVote, GatewayAccount};
use crate::instructions::create_round::CreateRound;
use crate::instructions::delegate_vote::DelegateVote;
use crate::instructions::deposit_tokens::DepositTokens;
use crate::instructions::init_governance_config::InitGovernanceConfig;
use crate::instructions::relinquish_vote::RelinquishVote;
use crate::instructions::revoke_delegation::RevokeDelegation;
use crate::instructions::submit_idea::SubmitIdea;
use crate::instructions::transition_round::TransitionRound;
use crate::instructions::update_governance_config::UpdateGovernanceConfig;
use crate::instructions::veto_idea::VetoIdea;
use crate::instructions::withdraw_tokens::WithdrawTokens;
use crate::ledger::{lemma_cast_weight_none, total_staked, IdeaEntry, Ledger, RoundEntry};
use crate::state::delegation_record::DelegationRecord;
use crate::state::governance_config::GovernanceConfig;
use crate::state::idea::{Idea, IdeaStatus};
use crate::state::idea_round::{IdeaRound, QuorumType};
use crate::state::pubkey::Pubkey;
use crate::state::vote_record::VoteChoice;
use crate::state::vote_deposit::VoteDeposit;

verus! {

impl Ledger {
    /// The stake of `owner`, or the empty stake if they have none.
    pub open spec fn stake_or_empty(self, owner: Pubkey) -> VoteDeposit {
        match self.stake_of(owner) {
            Some(deposit) => deposit,
            None => VoteDeposit::spec_empty(owner),
        }
    }

    /// The records that a deposit by `depositor` reads.
    pub open spec fn deposit_accounts(self, depositor: Pubkey, vote_deposit_bump: u8) -> DepositTokens {
        DepositTokens {
            governance_config: self.governance_config,
            vote_deposit: self.stake_or_empty(depositor),
            depositor,
            vote_deposit_bump,
        }
    }

    /// The records that a withdrawal by `depositor` reads, if they have a
    /// stake.
    pub open spec fn withdraw_accounts(self, depositor: Pubkey) -> Option<WithdrawTokens> {
        match self.stake_of(depositor) {
            Some(vote_deposit) => Some(
                WithdrawTokens { governance_config: self.governance_config, vote_deposit, depositor },
            ),
            None => None,
        }
    }

    /// Whether `new` differs from this ledger in the configuration and in
    /// `owner`'s stake at most.
    pub open spec fn same_but_stake(self, new: Ledger, owner: Pubkey) -> bool {
        &&& new.rounds@ == self.rounds@
        &&& new.ideas@ == self.ideas@
        &&& new.delegations@ == self.delegations@
        &&& new.vote_records@ == self.vote_records@
        &&& forall|other: Pubkey| other != owner ==> new.stake_of(other) == self.stake_of(other)
    }
}

/// Deposits `amount` tokens for `depositor` at the time `now`. A depositor
/// without a stake gets one.
pub fn deposit_tokens(
    ledger: &mut Ledger,
    depositor: Pubkey,
    amount: u64,
    now: i64,
    vote_deposit_bump: u8,
) -> (r: Result<(), LedgerError>)
    requires
        old(ledger).wf(),
    ensures
        final(ledger).wf(),
        match r {
            Ok(()) => {
                let ctx = old(ledger).deposit_accounts(depositor, vote_deposit_bump);
                &&& ctx.spec_error(amount, now) is None
                &&& final(ledger).governance_config == ctx.spec_after(amount, now).governance_config
                &&& final(ledger).stake_of(depositor) == Some(
                    ctx.spec_after(amount, now).vote_deposit,
                )
                &&& old(ledger).same_but_stake(*final(ledger), depositor)
            },
            Err(e) => {
                &&& old(ledger).deposit_accounts(depositor, vote_deposit_bump).spec_error(
                    amount,
                    now,
                ) matches Some(g)
                &&& e == LedgerError::Governance(g)
                &&& final(ledger).same_as(*old(ledger))
            },
        },
{
    let found = ledger.find_deposit(&depositor);
    let vote_deposit = match found {
        Some(i) => ledger.deposits[i],
        None => VoteDeposit::empty(depositor),
    };
    let mut ctx = DepositTokens {
        governance_config: ledger.governance_config,
        vote_deposit,
        depositor,
        vote_deposit_bump,
    };
    match crate::instructions::deposit_tokens::handler(&mut ctx, amount, now) {
        Err(e) => Err(LedgerError::Governance(e)),
        Ok(()) => {
            let ghost before = *ledger;
            ledger.governance_config = ctx.governance_config;
            match found {
                Some(i) => {
                    ledger.deposits[i] = ctx.vote_deposit;
                    proof {
                        before.lemma_deposit_replaced(*ledger, i as int, ctx.vote_deposit);
                    }
                },
                None => {
                    ledger.deposits.push(ctx.vote_deposit);
                    proof {
                        before.lemma_deposit_added(*ledger, ctx.vote_deposit);
                    }
                },
            }
            proof {
                before.lemma_wf_but_stakes(*ledger);
            }
            Ok(())
        },
    }
}

/// Withdraws `amount` tokens from `depositor`'s stake.
pub fn withdraw_tokens(ledger: &mut Ledger, depositor: Pubkey, amount: u64) -> (r: Result<
    (),
    LedgerError,
>)
    requires
        old(ledger).wf(),
    ensures
        final(ledger).wf(),
        match r {
            Ok(()) => {
                &&& old(ledger).withdraw_accounts(depositor) matches Some(ctx)
                &&& ctx.spec_error(amount) is None
                &&& final(ledger).governance_config == ctx.spec_after(amount).governance_config
                &&& final(ledger).stake_of(depositor) == Some(ctx.spec_after(amount).vote_deposit)
                &&& old(ledger).same_but_stake(*final(ledger), depositor)
            },
            Err(e) => {
                &&& final(ledger).same_as(*old(ledger))
                &&& match old(ledger).withdraw_accounts(depositor) {
                    None => e == LedgerError::AccountNotInitialized,
                    Some(ctx) => ctx.spec_error(amount) matches Some(g) && e
                        == LedgerError::Governance(g),
                }
            },
        },
        // A stake without active votes can always be withdrawn in full.
        old(ledger).stake_of(depositor) matches Some(stake) && stake.active_votes == 0 && amount
            == stake.deposited_amount ==> r is Ok,
        // A stake that is withdrawn in full forgets its timelock.
        r is Ok && old(ledger).stake_of(depositor) is Some && amount == old(ledger).stake_of(
            depositor,
        )->0.deposited_amount ==> final(ledger).stake_of(depositor) == Some(
            VoteDeposit {
                deposited_amount: 0,
                deposit_timestamp: 0,
                eligible_at: 0,
                ..old(ledger).stake_of(depositor)->0
            },
        ),
        // A stake with active votes can never be withdrawn.
        old(ledger).stake_of(depositor) matches Some(stake) && stake.active_votes > 0 ==> r
            == Err::<(), LedgerError>(LedgerError::Governance(GovernanceError::ActiveVotesExist)),
{
    let i = match ledger.find_deposit(&depositor) {
        Some(i) => i,
        None => {
            return Err(LedgerError::AccountNotInitialized);
        },
    };
    proof {
        crate::ledger::lemma_total_staked_update(
            ledger.deposits@,
            i as int,
            ledger.deposits@[i as int],
            ledger.deposits@.len() as int,
        );
    }
    let mut ctx = WithdrawTokens {
        governance_config: ledger.governance_config,
        vote_deposit: ledger.deposits[i],
        depositor,
    };
    match crate::instructions::withdraw_tokens::handler(&mut ctx, amount) {
        Err(e) => Err(LedgerError::Governance(e)),
        Ok(()) => {
            let ghost before = *ledger;
            ledger.governance_config = ctx.governance_config;
            ledger.deposits[i] = ctx.vote_deposit;
            proof {
                before.lemma_deposit_replaced(*ledger, i as int, ctx.vote_deposit);
                before.lemma_wf_but_stakes(*ledger);
            }
            Ok(())
        },
    }
}

impl Ledger {
    /// A ledger that differs from a well-formed one in its stakes and in the
    /// total of all stakes only is well formed, if its stakes are distinct
    /// and sum to its total.
    pub proof fn lemma_wf_but_stakes(self, new: Ledger)
        requires
            self.wf(),
            new.rounds@ == self.rounds@,
            new.ideas@ == self.ideas@,
            new.delegations@ == self.delegations@,
            new.vote_records@ == self.vote_records@,
            new.governance_config.round_count == self.governance_config.round_count,
            new.deposits_distinct(),
            new.governance_config.total_deposited == total_staked(
                new.deposits@,
                new.deposits@.len() as int,
            ),
        ensures
            new.wf(),
    {
        assert forall|i: int| 0 <= i < new.vote_records@.len() implies new.idea_at(
            (#[trigger] new.vote_records@[i]).idea,
        ) is Some by {
            assert(self.idea_at(self.vote_records@[i].idea) is Some);
        }
        assert forall|i: int, choice: VoteChoice|
            0 <= i < new.ideas@.len() implies #[trigger] new.tally_matches(i, choice) by {
            assert(self.tally_matches(i, choice));
        }
    }
}

/// Sets up governance: an empty ledger under a new configuration.
pub fn init_governance_config(
    ctx: &InitGovernanceConfig,
    deposit_timelock: i64,
    execution_timelock: i64,
) -> (ledger: Ledger)
    ensures
        ledger.wf(),
        ledger.governance_config == ctx.spec_config(deposit_timelock, execution_timelock),
        ledger.rounds@.len() == 0,
        ledger.ideas@.len() == 0,
        ledger.deposits@.len() == 0,
        ledger.delegations@.len() == 0,
        ledger.vote_records@.len() == 0,
{
    Ledger::new(
        crate::instructions::init_governance_config::handler(
            ctx,
            deposit_timelock,
            execution_timelock,
        ),
    )
}

/// Changes the quadratic-voting switch, the identity network and the decay
/// half-life. Only the admin may do so.
pub fn update_governance_config(
    ledger: &mut Ledger,
    admin: Pubkey,
    quadratic_voting_enabled: bool,
    civic_gatekeeper_network: Pubkey,
    decay_half_life_days: u16,
) -> (r: Result<(), LedgerError>)
    requires
        old(ledger).wf(),
    ensures
        final(ledger).wf(),
        final(ledger).rounds@ == old(ledger).rounds@,
        final(ledger).ideas@ == old(ledger).ideas@,
        final(ledger).deposits@ == old(ledger).deposits@,
        final(ledger).delegations@ == old(ledger).delegations@,
        final(ledger).vote_records@ == old(ledger).vote_records@,
        match r {
            Ok(()) => {
                &&& admin == old(ledger).governance_config.admin
                &&& final(ledger).governance_config == (GovernanceConfig {
                    quadratic_voting_enabled,
                    civic_gatekeeper_network,
                    decay_half_life_days,
                    ..old(ledger).governance_config
                })
            },
            Err(e) => {
                &&& admin != old(ledger).governance_config.admin
                &&& e == LedgerError::Governance(GovernanceError::UnauthorizedAdmin)
                &&& final(ledger).governance_config == old(ledger).governance_config
            },
        },
{
    let mut ctx = UpdateGovernanceConfig { governance_config: ledger.governance_config, admin };
    match crate::instructions::update_governance_config::handler(
        &mut ctx,
        quadratic_voting_enabled,
        civic_gatekeeper_network,
        decay_half_life_days,
    ) {
        Err(e) => Err(LedgerError::Governance(e)),
        Ok(()) => {
            let ghost before = *ledger;
            ledger.governance_config = ctx.governance_config;
            proof {
                before.lemma_wf_but_stakes(*ledger);
            }
            Ok(())
        },
    }
}

impl Ledger {
    /// The records that the creation of a round reads.
    pub open spec fn create_round_accounts(self, admin: Pubkey, idea_round_bump: u8) -> CreateRound {
        CreateRound { governance_config: self.governance_config, admin, idea_round_bump }
    }

    /// Whether `new` differs from this ledger in the configuration and in the
    /// round at `key` at most.
    pub open spec fn same_but_round(self, new: Ledger, key: Pubkey) -> bool {
        &&& new.ideas@ == self.ideas@
        &&& new.deposits@ == self.deposits@
        &&& new.delegations@ == self.delegations@
        &&& new.vote_records@ == self.vote_records@
        &&& forall|other: Pubkey| other != key ==> new.round_at(other) == self.round_at(other)
    }

    /// Whether `new` differs from this ledger in the idea at `key` at most.
    pub open spec fn same_but_idea(self, new: Ledger, key: Pubkey) -> bool {
        &&& new.governance_config == self.governance_config
        &&& new.rounds@ == self.rounds@
        &&& new.deposits@ == self.deposits@
        &&& new.delegations@ == self.delegations@
        &&& new.vote_records@ == self.vote_records@
        &&& forall|other: Pubkey| other != key ==> new.idea_at(other) == self.idea_at(other)
    }

    /// A ledger that differs from a well-formed one in its rounds and in the
    /// round counter only is well formed, if its rounds are distinct and the
    /// counter counts them.
    pub proof fn lemma_wf_but_rounds(self, new: Ledger)
        requires
            self.wf(),
            new.ideas@ == self.ideas@,
            new.deposits@ == self.deposits@,
            new.delegations@ == self.delegations@,
            new.vote_records@ == self.vote_records@,
            new.governance_config.total_deposited == self.governance_config.total_deposited,
            new.rounds_distinct(),
            new.governance_config.round_count == new.rounds@.len(),
        ensures
            new.wf(),
    {
        assert forall|i: int| 0 <= i < new.vote_records@.len() implies new.idea_at(
            (#[trigger] new.vote_records@[i]).idea,
        ) is Some by {
            assert(self.idea_at(self.vote_records@[i].idea) is Some);
        }
        assert forall|i: int, choice: VoteChoice|
            0 <= i < new.ideas@.len() implies #[trigger] new.tally_matches(i, choice) by {
            assert(self.tally_matches(i, choice));
        }
    }
}

/// Creates a round at the address `round_key`, which must be free.
pub fn create_round(
    ledger: &mut Ledger,
    admin: Pubkey,
    round_key: Pubkey,
    submission_start: i64,
    submission_end: i64,
    voting_end: i64,
    quorum_type: QuorumType,
    content_hash: [u8; 32],
    idea_round_bump: u8,
) -> (r: Result<(), LedgerError>)
    requires
        old(ledger).wf(),
    ensures
        final(ledger).wf(),
        final(ledger).governance_config.round_count >= old(ledger).governance_config.round_count,
        match r {
            Ok(()) => {
                let ctx = old(ledger).create_round_accounts(admin, idea_round_bump);
                &&& old(ledger).round_at(round_key) is None
                &&& ctx.spec_error(submission_start, submission_end, voting_end) is None
                &&& final(ledger).round_at(round_key) == Some(
                    ctx.spec_round(
                        submission_start,
                        submission_end,
                        voting_end,
                        quorum_type,
                        content_hash,
                    ),
                )
                &&& final(ledger).governance_config == (GovernanceConfig {
                    round_count: (old(ledger).governance_config.round_count + 1) as u32,
                    ..old(ledger).governance_config
                })
                &&& old(ledger).same_but_round(*final(ledger), round_key)
            },
            Err(e) => {
                &&& final(ledger).same_as(*old(ledger))
                &&& if old(ledger).round_at(round_key) is Some {
                    e == LedgerError::AccountAlreadyInUse
                } else {
                    old(ledger).create_round_accounts(admin, idea_round_bump).spec_error(
                        submission_start,
                        submission_end,
                        voting_end,
                    ) matches Some(g) && e == LedgerError::Governance(g)
                }
            },
        },
{
    if ledger.find_round(&round_key).is_some() {
        return Err(LedgerError::AccountAlreadyInUse);
    }
    let mut ctx = CreateRound { governance_config: ledger.governance_config, admin, idea_round_bump };
    match crate::instructions::create_round::handler(
        &mut ctx,
        submission_start,
        submission_end,
        voting_end,
        quorum_type,
        content_hash,
    ) {
        Err(e) => Err(LedgerError::Governance(e)),
        Ok(round) => {
            let ghost before = *ledger;
            let entry = RoundEntry { key: round_key, round };
            ledger.governance_config = ctx.governance_config;
            ledger.rounds.push(entry);
            proof {
                before.lemma_round_added(*ledger, entry);
                before.lemma_wf_but_rounds(*ledger);
            }
            Ok(())
        },
    }
}

/// Moves the round at `round_key` one state forward if its deadline has
/// passed at `now`. Anyone may ask for this.
pub fn transition_round(ledger: &mut Ledger, round_key: Pubkey, now: i64) -> (r: Result<
    (),
    LedgerError,
>)
    requires
        old(ledger).wf(),
    ensures
        final(ledger).wf(),
        match r {
            Ok(()) => {
                &&& old(ledger).round_at(round_key) matches Some(round)
                &&& round.spec_advance(now) matches Ok(advanced)
                &&& final(ledger).round_at(round_key) == Some(advanced)
                &&& final(ledger).governance_config == old(ledger).governance_config
                &&& old(ledger).same_but_round(*final(ledger), round_key)
            },
            Err(e) => {
                &&& final(ledger).same_as(*old(ledger))
                &&& match old(ledger).round_at(round_key) {
                    None => e == LedgerError::AccountNotInitialized,
                    Some(round) => round.spec_advance(now) matches Err(g) && e
                        == LedgerError::Governance(g),
                }
            },
        },
{
    let i = match ledger.find_round(&round_key) {
        Some(i) => i,
        None => {
            return Err(LedgerError::AccountNotInitialized);
        },
    };
    let mut ctx = TransitionRound { idea_round: ledger.rounds[i].round };
    match crate::instructions::transition_round::handler(&mut ctx, now) {
        Err(e) => Err(LedgerError::Governance(e)),
        Ok(()) => {
            let ghost before = *ledger;
            ledger.rounds[i] = RoundEntry { key: round_key, round: ctx.idea_round };
            proof {
                before.lemma_round_replaced(*ledger, i as int, ctx.idea_round);
                before.lemma_wf_but_rounds(*ledger);
            }
            Ok(())
        },
    }
}

impl Ledger {
    /// The records that the submission of an idea to the round at `round_key`
    /// reads, if there is such a round.
    pub open spec fn submit_idea_accounts(self, author: Pubkey, round_key: Pubkey, idea_bump: u8) -> Option<
        SubmitIdea,
    > {
        match self.round_at(round_key) {
            Some(idea_round) => Some(
                SubmitIdea { idea_round, idea_round_key: round_key, author, idea_bump },
            ),
            None => None,
        }
    }

    /// The records that a veto of the idea at `idea_key` reads, if the idea
    /// and its round are stored.
    pub open spec fn veto_accounts(self, veto_authority: Pubkey, idea_key: Pubkey) -> Option<VetoIdea> {
        match self.idea_at(idea_key) {
            Some(idea) => match self.round_at(idea.round) {
                Some(round) => Some(
                    VetoIdea {
                        idea,
                        round,
                        governance_config: self.governance_config,
                        veto_authority,
                    },
                ),
                None => None,
            },
            None => None,
        }
    }

    /// A ledger whose ideas keep their keys and counters, and whose other
    /// records but the rounds are those of a well-formed ledger, is well
    /// formed if its ideas and rounds are distinct.
    pub proof fn lemma_wf_ideas_keep_tallies(self, new: Ledger)
        requires
            self.wf(),
            new.governance_config == self.governance_config,
            new.rounds@.len() == self.rounds@.len(),
            new.rounds_distinct(),
            new.deposits@ == self.deposits@,
            new.delegations@ == self.delegations@,
            new.vote_records@ == self.vote_records@,
            new.ideas_distinct(),
            forall|k: Pubkey| self.idea_at(k) is Some ==> new.idea_at(k) is Some,
            new.tallies_match(),
        ensures
            new.wf(),
    {
        assert forall|i: int| 0 <= i < new.vote_records@.len() implies new.idea_at(
            (#[trigger] new.vote_records@[i]).idea,
        ) is Some by {
            assert(self.idea_at(self.vote_records@[i].idea) is Some);
        }
    }
}

/// Submits an idea to the round at `round_key`, to be stored at the address
/// `idea_key`, which must be free.
pub fn submit_idea(
    ledger: &mut Ledger,
    author: Pubkey,
    round_key: Pubkey,
    idea_key: Pubkey,
    content_hash: [u8; 32],
    now: i64,
    idea_bump: u8,
) -> (r: Result<(), LedgerError>)
    requires
        old(ledger).wf(),
    ensures
        final(ledger).wf(),
        match r {
            Ok(()) => {
                &&& old(ledger).submit_idea_accounts(author, round_key, idea_bump) matches Some(ctx)
                &&& old(ledger).idea_at(idea_key) is None
                &&& ctx.spec_error(now) is None
                &&& final(ledger).idea_at(idea_key) == Some(ctx.spec_idea(content_hash, now))
                &&& final(ledger).round_at(round_key) == Some(
                    IdeaRound {
                        idea_count: (ctx.idea_round.idea_count + 1) as u32,
                        ..ctx.idea_round
                    },
                )
                &&& final(ledger).governance_config == old(ledger).governance_config
                &&& final(ledger).deposits@ == old(ledger).deposits@
                &&& final(ledger).delegations@ == old(ledger).delegations@
                &&& final(ledger).vote_records@ == old(ledger).vote_records@
                &&& forall|k: Pubkey|
                    k != round_key ==> final(ledger).round_at(k) == old(ledger).round_at(k)
                &&& forall|k: Pubkey|
                    k != idea_key ==> final(ledger).idea_at(k) == old(ledger).idea_at(k)
            },
            Err(e) => {
                &&& final(ledger).same_as(*old(ledger))
                &&& match old(ledger).submit_idea_accounts(author, round_key, idea_bump) {
                    None => e == LedgerError::AccountNotInitialized,
                    Some(ctx) => if old(ledger).idea_at(idea_key) is Some {
                        e == LedgerError::AccountAlreadyInUse
                    } else {
                        ctx.spec_error(now) matches Some(g) && e == LedgerError::Governance(g)
                    },
                }
            },
        },
{
    let i = match ledger.find_round(&round_key) {
        Some(i) => i,
        None => {
            return Err(LedgerError::AccountNotInitialized);
        },
    };
    if ledger.find_idea(&idea_key).is_some() {
        return Err(LedgerError::AccountAlreadyInUse);
    }
    let mut ctx = SubmitIdea {
        idea_round: ledger.rounds[i].round,
        idea_round_key: round_key,
        author,
        idea_bump,
    };
    match crate::instructions::submit_idea::handler(&mut ctx, content_hash, now) {
        Err(e) => Err(LedgerError::Governance(e)),
        Ok(idea) => {
            let ghost before = *ledger;
            let entry = IdeaEntry { key: idea_key, idea };
            ledger.rounds[i] = RoundEntry { key: round_key, round: ctx.idea_round };
            ledger.ideas.push(entry);
            proof {
                before.lemma_round_replaced(*ledger, i as int, ctx.idea_round);
                before.lemma_idea_added(*ledger, entry);
                let n = before.ideas@.len() as int;
                assert forall|j: int, choice: VoteChoice|
                    0 <= j < ledger.ideas@.len() implies #[trigger] ledger.tally_matches(
                    j,
                    choice,
                ) by {
                    if j < n {
                        assert(ledger.ideas@[j] == before.ideas@[j]);
                        assert(before.tally_matches(j, choice));
                    } else {
                        assert forall|k: int|
                            0 <= k < before.vote_records@.len() implies (
                        #[trigger] before.vote_records@[k]).idea != idea_key by {
                            assert(before.idea_at(before.vote_records@[k].idea) is Some);
                        }
                        lemma_cast_weight_none(
                            ledger.vote_records@,
                            idea_key,
                            choice,
                            ledger.vote_records@.len() as int,
                        );
                    }
                }
                assert(ledger.tallies_match());
                before.lemma_wf_ideas_keep_tallies(*ledger);
            }
            Ok(())
        },
    }
}

/// Vetoes the idea at `idea_key` in the name of `veto_authority`.
pub fn veto_idea(ledger: &mut Ledger, veto_authority: Pubkey, idea_key: Pubkey) -> (r: Result<
    (),
    LedgerError,
>)
    requires
        old(ledger).wf(),
    ensures
        final(ledger).wf(),
        match r {
            Ok(()) => {
                &&& old(ledger).veto_accounts(veto_authority, idea_key) matches Some(ctx)
                &&& ctx.spec_error() is None
                &&& final(ledger).idea_at(idea_key) == Some(
                    Idea { status: IdeaStatus::Vetoed, ..ctx.idea },
                )
                &&& old(ledger).same_but_idea(*final(ledger), idea_key)
            },
            Err(e) => {
                &&& final(ledger).same_as(*old(ledger))
                &&& match old(ledger).veto_accounts(veto_authority, idea_key) {
                    None => e == LedgerError::AccountNotInitialized,
                    Some(ctx) => ctx.spec_error() matches Some(g) && e == LedgerError::Governance(
                        g,
                    ),
                }
            },
        },
{
    let i = match ledger.find_idea(&idea_key) {
        Some(i) => i,
        None => {
            return Err(LedgerError::AccountNotInitialized);
        },
    };
    let idea = ledger.ideas[i].idea;
    let j = match ledger.find_round(&idea.round) {
        Some(j) => j,
        None => {
            return Err(LedgerError::AccountNotInitialized);
        },
    };
    let mut ctx = VetoIdea {
        idea,
        round: ledger.rounds[j].round,
        governance_config: ledger.governance_config,
        veto_authority,
    };
    match crate::instructions::veto_idea::handler(&mut ctx) {
        Err(e) => Err(LedgerError::Governance(e)),
        Ok(()) => {
            let ghost before = *ledger;
            ledger.ideas[i] = IdeaEntry { key: idea_key, idea: ctx.idea };
            proof {
                before.lemma_idea_replaced(*ledger, i as int, ctx.idea);
                assert forall|k: int, choice: VoteChoice|
                    0 <= k < ledger.ideas@.len() implies #[trigger] ledger.tally_matches(
                    k,
                    choice,
                ) by {
                    assert(before.tally_matches(k, choice));
                }
                assert(ledger.tallies_match());
                before.lemma_wf_ideas_keep_tallies(*ledger);
            }
            Ok(())
        },
    }
}

impl Ledger {
    /// The records that a delegation by `delegator` reads.
    pub open spec fn delegate_accounts(
        self,
        delegator: Pubkey,
        delegate: Pubkey,
        delegation_record_bump: u8,
    ) -> DelegateVote {
        DelegateVote {
            governance_config: self.governance_config,
            vote_deposit: self.stake_or_empty(delegator),
            delegator,
            delegate,
            delegation_record_bump,
        }
    }

    /// Whether `new` differs from this ledger in `delegator`'s delegation at
    /// most.
    pub open spec fn same_but_delegation(self, new: Ledger, delegator: Pubkey) -> bool {
        &&& new.governance_config == self.governance_config
        &&& new.rounds@ == self.rounds@
        &&& new.ideas@ == self.ideas@
        &&& new.deposits@ == self.deposits@
        &&& new.vote_records@ == self.vote_records@
        &&& forall|other: Pubkey|
            other != delegator ==> new.delegation_of(other) == self.delegation_of(other)
    }

    /// A ledger that differs from a well-formed one in its delegations only
    /// is well formed, if its delegations are distinct and active.
    pub proof fn lemma_wf_but_delegations(self, new: Ledger)
        requires
            self.wf(),
            new.governance_config == self.governance_config,
            new.rounds@ == self.rounds@,
            new.ideas@ == self.ideas@,
            new.deposits@ == self.deposits@,
            new.vote_records@ == self.vote_records@,
            new.delegations_distinct(),
        ensures
            new.wf(),
    {
        assert forall|i: int| 0 <= i < new.vote_records@.len() implies new.idea_at(
            (#[trigger] new.vote_records@[i]).idea,
        ) is Some by {
            assert(self.idea_at(self.vote_records@[i].idea) is Some);
        }
        assert forall|i: int, choice: VoteChoice|
            0 <= i < new.ideas@.len() implies #[trigger] new.tally_matches(i, choice) by {
            assert(self.tally_matches(i, choice));
        }
    }
}

/// Delegates `delegator`'s whole stake to `delegate` at the time `now`. A
/// delegator has one delegation at most: to delegate anew they revoke first.
pub fn delegate_vote(
    ledger: &mut Ledger,
    delegator: Pubkey,
    delegate: Pubkey,
    now: i64,
    delegation_record_bump: u8,
) -> (r: Result<(), LedgerError>)
    requires
        old(ledger).wf(),
    ensures
        final(ledger).wf(),
        match r {
            Ok(()) => {
                let ctx = old(ledger).delegate_accounts(delegator, delegate, delegation_record_bump);
                &&& ctx.spec_error() is None
                &&& old(ledger).delegation_of(delegator) is None
                &&& final(ledger).delegation_of(delegator) == Some(ctx.spec_record(now))
                &&& old(ledger).same_but_delegation(*final(ledger), delegator)
            },
            Err(e) => {
                let ctx = old(ledger).delegate_accounts(delegator, delegate, delegation_record_bump);
                &&& final(ledger).same_as(*old(ledger))
                &&& match ctx.spec_error() {
                    Some(g) => e == LedgerError::Governance(g),
                    None => old(ledger).delegation_of(delegator) is Some && e
                        == LedgerError::Governance(GovernanceError::DelegationAlreadyExists),
                }
            },
        },
{
    let vote_deposit = match ledger.find_deposit(&delegator) {
        Some(i) => ledger.deposits[i],
        None => VoteDeposit::empty(delegator),
    };
    let ctx = DelegateVote {
        governance_config: ledger.governance_config,
        vote_deposit,
        delegator,
        delegate,
        delegation_record_bump,
    };
    match crate::instructions::delegate_vote::handler(&ctx, now) {
        Err(e) => Err(LedgerError::Governance(e)),
        Ok(record) => {
            if ledger.find_delegation(&delegator).is_some() {
                return Err(LedgerError::Governance(GovernanceError::DelegationAlreadyExists));
            }
            let ghost before = *ledger;
            ledger.delegations.push(record);
            proof {
                before.lemma_delegation_added(*ledger, record);
                before.lemma_wf_but_delegations(*ledger);
            }
            Ok(())
        },
    }
}

/// Revokes `delegator`'s delegation and frees its place, so that they may
/// delegate anew.
pub fn revoke_delegation(ledger: &mut Ledger, delegator: Pubkey) -> (r: Result<(), LedgerError>)
    requires
        old(ledger).wf(),
    ensures
        final(ledger).wf(),
        match r {
            Ok(()) => {
                &&& old(ledger).delegation_of(delegator) is Some
                &&& final(ledger).delegation_of(delegator) is None
                &&& old(ledger).same_but_delegation(*final(ledger), delegator)
            },
            Err(e) => {
                &&& old(ledger).delegation_of(delegator) is None
                &&& e == LedgerError::Governance(GovernanceError::NoDelegation)
                &&& final(ledger).same_as(*old(ledger))
            },
        },
{
    let i = match ledger.find_delegation(&delegator) {
        Some(i) => i,
        None => {
            return Err(LedgerError::Governance(GovernanceError::NoDelegation));
        },
    };
    let mut ctx = RevokeDelegation { delegation_record: ledger.delegations[i], delegator };
    match crate::instructions::revoke_delegation::handler(&mut ctx) {
        Err(e) => Err(LedgerError::Governance(e)),
        Ok(()) => {
            let ghost before = *ledger;
            let _ = ledger.delegations.remove(i);
            proof {
                before.lemma_delegation_removed(*ledger, i as int);
                before.lemma_wf_but_delegations(*ledger);
            }
            Ok(())
        },
    }
}

impl Ledger {
    /// The stored delegations of the first `n` of the delegators `keys`, in
    /// their order; a key without a delegation gives none.
    pub open spec fn delegations_of(self, keys: Seq<Pubkey>, n: int) -> Seq<DelegationRecord>
        decreases n,
    {
        if n <= 0 {
            Seq::empty()
        } else {
            match self.delegation_of(keys[n - 1]) {
                Some(record) => self.delegations_of(keys, n - 1).push(record),
                None => self.delegations_of(keys, n - 1),
            }
        }
    }

    /// The candidate records of `voter`'s vote: the stored delegations of the
    /// delegators that the caller lists, and then `voter`'s own, which is
    /// always looked at.
    pub open spec fn candidates_of(self, voter: Pubkey, listed: Seq<Pubkey>) -> Seq<DelegationRecord> {
        self.delegations_of(listed.push(voter), listed.len() as int + 1)
    }

    /// The records that `voter`'s vote on the idea at `idea_key` reads, if
    /// the idea and its round are stored.
    pub open spec fn cast_vote_accounts(
        self,
        voter: Pubkey,
        idea_key: Pubkey,
        gateway_token: Option<GatewayAccount>,
        vote_record_bump: u8,
    ) -> Option<CastVote> {
        match self.idea_at(idea_key) {
            Some(idea) => match self.round_at(idea.round) {
                Some(round) => Some(
                    CastVote {
                        idea,
                        idea_key,
                        round,
                        round_key: idea.round,
                        vote_deposit: self.stake_or_empty(voter),
                        governance_config: self.governance_config,
                        gateway_token,
                        voter,
                        vote_record_bump,
                    },
                ),
                None => None,
            },
            None => None,
        }
    }

    /// Collects the stored delegations of the delegators `keys`.
    pub fn collect_delegations(&self, keys: &Vec<Pubkey>) -> (records: Vec<DelegationRecord>)
        requires
            self.delegations_distinct(),
        ensures
            records@ == self.delegations_of(keys@, keys@.len() as int),
    {
        let mut records: Vec<DelegationRecord> = Vec::new();
        let mut n: usize = 0;
        while n < keys.len()
            invariant
                n <= keys@.len(),
                self.delegations_distinct(),
                records@ == self.delegations_of(keys@, n as int),
            decreases keys@.len() - n,
        {
            match self.find_delegation(&keys[n]) {
                Some(i) => {
                    records.push(self.delegations[i]);
                },
                None => {},
            }
            n += 1;
        }
        records
    }
}

/// Casts `voter`'s vote on the idea at `idea_key` at the time `now`.
///
/// `candidates` lists delegators whose delegations may lend power to the
/// voter; the ledger looks each one up and checks it, and always looks at the
/// voter's own delegation too. A voter has one vote per idea: the receipt of
/// a vote is kept for good, and a second vote on the same idea is turned
/// down.
pub fn cast_vote(
    ledger: &mut Ledger,
    voter: Pubkey,
    idea_key: Pubkey,
    candidates: &Vec<Pubkey>,
    gateway_token: Option<GatewayAccount>,
    vote: VoteChoice,
    now: i64,
    vote_record_bump: u8,
) -> (r: Result<(), LedgerError>)
    requires
        old(ledger).wf(),
    ensures
        final(ledger).wf(),
        match r {
            Ok(()) => {
                let records = old(ledger).candidates_of(voter, candidates@);
                &&& old(ledger).cast_vote_accounts(
                    voter,
                    idea_key,
                    gateway_token,
                    vote_record_bump,
                ) matches Some(ctx)
                &&& old(ledger).vote_of(voter, idea_key) is None
                &&& ctx.spec_error(records, vote, now) is None
                &&& final(ledger).idea_at(idea_key) == Some(ctx.spec_after(records, vote).idea)
                &&& final(ledger).stake_of(voter) == Some(
                    ctx.spec_after(records, vote).vote_deposit,
                )
                &&& final(ledger).vote_records@ == old(ledger).vote_records@.push(
                    ctx.spec_record(records, vote, now),
                )
                &&& final(ledger).vote_of(voter, idea_key) == Some(
                    ctx.spec_record(records, vote, now),
                )
                &&& final(ledger).governance_config == old(ledger).governance_config
                &&& final(ledger).rounds@ == old(ledger).rounds@
                &&& final(ledger).delegations@ == old(ledger).delegations@
                &&& forall|k: Pubkey|
                    k != idea_key ==> final(ledger).idea_at(k) == old(ledger).idea_at(k)
                &&& forall|o: Pubkey| o != voter ==> final(ledger).stake_of(o) == old(
                    ledger,
                ).stake_of(o)
            },
            Err(e) => {
                &&& final(ledger).same_as(*old(ledger))
                &&& match old(ledger).cast_vote_accounts(
                    voter,
                    idea_key,
                    gateway_token,
                    vote_record_bump,
                ) {
                    None => e == LedgerError::AccountNotInitialized,
                    Some(ctx) => if old(ledger).vote_of(voter, idea_key) is Some {
                        e == LedgerError::AccountAlreadyInUse
                    } else {
                        ctx.spec_error(old(ledger).candidates_of(voter, candidates@), vote, now)
                            matches Some(g) && e == LedgerError::Governance(g)
                    },
                }
            },
        },
        // Whoever has voted on the idea cannot vote on it again.
        old(ledger).vote_of(voter, idea_key) is Some ==> r is Err,
        // Whoever has delegated their power away cannot vote.
        old(ledger).delegation_of(voter) is Some ==> r is Err,
        // No vote takes weight away from any idea.
        forall|k: Pubkey|
            (#[trigger] old(ledger).idea_at(k)) is Some ==> final(ledger).idea_at(k) is Some
                && final(ledger).idea_at(k)->0.total_weight() >= old(ledger).idea_at(
                k,
            )->0.total_weight(),
{
    let i = match ledger.find_idea(&idea_key) {
        Some(i) => i,
        None => {
            return Err(LedgerError::AccountNotInitialized);
        },
    };
    let idea = ledger.ideas[i].idea;
    let j = match ledger.find_round(&idea.round) {
        Some(j) => j,
        None => {
            return Err(LedgerError::AccountNotInitialized);
        },
    };
    if ledger.find_vote(&voter, &idea_key).is_some() {
        return Err(LedgerError::AccountAlreadyInUse);
    }
    let found = ledger.find_deposit(&voter);
    let vote_deposit = match found {
        Some(d) => ledger.deposits[d],
        None => VoteDeposit::empty(voter),
    };
    let mut keys: Vec<Pubkey> = Vec::new();
    let mut n: usize = 0;
    while n < candidates.len()
        invariant
            n <= candidates@.len(),
            keys@ == candidates@.subrange(0, n as int),
        decreases candidates@.len() - n,
    {
        keys.push(candidates[n]);
        proof {
            assert(keys@ =~= candidates@.subrange(0, n + 1));
        }
        n += 1;
    }
    keys.push(voter);
    assert(keys@ =~= candidates@.push(voter));
    let records = ledger.collect_delegations(&keys);
    let mut ctx = CastVote {
        idea,
        idea_key,
        round: ledger.rounds[j].round,
        round_key: idea.round,
        vote_deposit,
        governance_config: ledger.governance_config,
        gateway_token,
        voter,
        vote_record_bump,
    };
    proof {
        ledger.lemma_own_delegation_listed(voter, candidates@);
    }
    match crate::instructions::cast_vote::handler(&mut ctx, &records, vote, now) {
        Err(e) => Err(LedgerError::Governance(e)),
        Ok(record) => {
            let ghost before = *ledger;
            let d = match found {
                Some(d) => d,
                None => {
                    // Not reached: a vote is taken only from a voter with a stake.
                    return Err(LedgerError::Governance(GovernanceError::NoDeposit));
                },
            };
            ledger.ideas[i] = IdeaEntry { key: idea_key, idea: ctx.idea };
            ledger.deposits[d] = ctx.vote_deposit;
            ledger.vote_records.push(record);
            proof {
                before.lemma_idea_replaced(*ledger, i as int, ctx.idea);
                before.lemma_deposit_replaced(*ledger, d as int, ctx.vote_deposit);
                before.lemma_vote_added(*ledger, record);
                assert forall|k: int, choice: VoteChoice|
                    0 <= k < ledger.ideas@.len() implies #[trigger] ledger.tally_matches(
                    k,
                    choice,
                ) by {
                    assert(before.tally_matches(k, choice));
                    if k != i {
                        assert(before.ideas@[k].key != before.ideas@[i as int].key);
                    }
                }
                assert(ledger.tallies_match());
                assert forall|k: int| 0 <= k < ledger.vote_records@.len() implies ledger.idea_at(
                    (#[trigger] ledger.vote_records@[k]).idea,
                ) is Some by {
                    if k < before.vote_records@.len() {
                        assert(ledger.vote_records@[k] == before.vote_records@[k]);
                        assert(before.idea_at(before.vote_records@[k].idea) is Some);
                    }
                }
                assert forall|k: Pubkey| (#[trigger] before.idea_at(k)) is Some implies ledger.idea_at(k) is Some
                    && ledger.idea_at(k)->0.total_weight() >= before.idea_at(k)->0.total_weight() by {}
            }
            Ok(())
        },
    }
}

impl Ledger {
    /// The voter's own delegation, if they have one, is among the candidates
    /// of their vote, and it is active.
    pub proof fn lemma_own_delegation_listed(self, voter: Pubkey, listed: Seq<Pubkey>)
        requires
            self.delegations_distinct(),
        ensures
            self.delegation_of(voter) is Some ==> crate::instructions::cast_vote::has_active_outgoing(
                voter,
                self.candidates_of(voter, listed),
            ),
    {
        if self.delegation_of(voter) is Some {
            let i = choose|i: int|
                0 <= i < self.delegations@.len() && (#[trigger] self.delegations@[i]).delegator
                    == voter;
            let records = self.candidates_of(voter, listed);
            let last = records.len() - 1;
            assert(records[last] == self.delegations@[i]);
            assert(records[last].delegator == voter && records[last].is_active);
        }
    }

    /// The records that the release of `voter`'s vote on the idea at
    /// `idea_key` reads, if the receipt, its round and the stake are stored.
    pub open spec fn relinquish_accounts(self, voter: Pubkey, idea_key: Pubkey) -> Option<
        RelinquishVote,
    > {
        match self.vote_of(voter, idea_key) {
            Some(vote_record) => match self.round_at(vote_record.round) {
                Some(round) => match self.stake_of(voter) {
                    Some(vote_deposit) => Some(
                        RelinquishVote { round, vote_record, vote_deposit, voter },
                    ),
                    None => None,
                },
                None => None,
            },
            None => None,
        }
    }
}

/// Releases `voter`'s vote on the idea at `idea_key` once its round is
/// closed: the voter's stake has one active vote less.
pub fn relinquish_vote(ledger: &mut Ledger, voter: Pubkey, idea_key: Pubkey) -> (r: Result<
    (),
    LedgerError,
>)
    requires
        old(ledger).wf(),
    ensures
        final(ledger).wf(),
        match r {
            Ok(()) => {
                &&& old(ledger).relinquish_accounts(voter, idea_key) matches Some(ctx)
                &&& ctx.spec_error() is None
                &&& final(ledger).stake_of(voter) == Some(
                    VoteDeposit {
                        active_votes: (ctx.vote_deposit.active_votes - 1) as u32,
                        ..ctx.vote_deposit
                    },
                )
                &&& final(ledger).governance_config == old(ledger).governance_config
                &&& old(ledger).same_but_stake(*final(ledger), voter)
            },
            Err(e) => {
                &&& final(ledger).same_as(*old(ledger))
                &&& match old(ledger).relinquish_accounts(voter, idea_key) {
                    None => e == LedgerError::AccountNotInitialized,
                    Some(ctx) => ctx.spec_error() matches Some(g) && e == LedgerError::Governance(
                        g,
                    ),
                }
            },
        },
{
    let v = match ledger.find_vote(&voter, &idea_key) {
        Some(v) => v,
        None => {
            return Err(LedgerError::AccountNotInitialized);
        },
    };
    let vote_record = ledger.vote_records[v];
    let j = match ledger.find_round(&vote_record.round) {
        Some(j) => j,
        None => {
            return Err(LedgerError::AccountNotInitialized);
        },
    };
    let d = match ledger.find_deposit(&voter) {
        Some(d) => d,
        None => {
            return Err(LedgerError::AccountNotInitialized);
        },
    };
    let mut ctx = RelinquishVote {
        round: ledger.rounds[j].round,
        vote_record,
        vote_deposit: ledger.deposits[d],
        voter,
    };
    match crate::instructions::relinquish_vote::handler(&mut ctx) {
        Err(e) => Err(LedgerError::Governance(e)),
        Ok(()) => {
            let ghost before = *ledger;
            ledger.deposits[d] = ctx.vote_deposit;
            proof {
                before.lemma_deposit_replaced(*ledger, d as int, ctx.vote_deposit);
                before.lemma_wf_but_stakes(*ledger);
            }
            Ok(())
        },
    }
}

impl Ledger {
    /// The counters of a stored idea sum to the weight of all the receipts
    /// for it.
    pub proof fn lemma_tallies_are_sums(self, idea_key: Pubkey)
        requires
            self.wf(),
            self.idea_at(idea_key) is Some,
        ensures
            self.idea_at(idea_key)->0.total_weight() == crate::ledger::total_cast(
                self.vote_records@,
                idea_key,
            ),
    {
        let i = choose|i: int|
            0 <= i < self.ideas@.len() && (#[trigger] self.ideas@[i]).key == idea_key;
        assert(self.tally_matches(i, VoteChoice::Yes));
        assert(self.tally_matches(i, VoteChoice::No));
        assert(self.tally_matches(i, VoteChoice::Abstain));
    }

    /// A voter has at most one receipt per idea: two stored receipts of one
    /// voter for one idea are the same receipt.
    pub proof fn lemma_one_vote_per_idea(self, a: int, b: int)
        requires
            self.wf(),
            0 <= a < self.vote_records@.len(),
            0 <= b < self.vote_records@.len(),
            self.vote_records@[a].voter == self.vote_records@[b].voter,
            self.vote_records@[a].idea == self.vote_records@[b].idea,
        ensures
            a == b,
    {
        if a < b {
            assert(!(self.vote_records@[a].voter == self.vote_records@[b].voter
                && self.vote_records@[a].idea == self.vote_records@[b].idea));
        } else if b < a {
            assert(!(self.vote_records@[b].voter == self.vote_records@[a].voter
                && self.vote_records@[b].idea == self.vote_records@[a].idea));
        }
    }
}

} // verus!
