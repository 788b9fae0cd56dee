use vstd::prelude::*;

use crate::state::delegation_record::DelegationRecord;
use crate::state::governance_config::GovernanceConfig;
use crate::state::idea::Idea;
use crate::state::idea_round::IdeaRound;
use crate::state::pubkey::Pubkey;
use crate::state::vote_deposit::VoteDeposit;
use crate::state::vote_record::{VoteChoice, VoteRecord};

verus! {

/// A round, stored under its address.
#[derive(Clone, Copy, Debug)]
pub struct RoundEntry {
    pub key: Pubkey,
    pub round: IdeaRound,
}

/// An idea, stored under its address.
#[derive(Clone, Copy, Debug)]
pub struct IdeaEntry {
    pub key: Pubkey,
    pub idea: Idea,
}

/// The governance records, each kind in a store of its own under an explicit
/// key: a round and an idea under their address, a stake under its owner, a
/// delegation under its delegator, a vote's receipt under voter and idea.
/// A record is created only where its key is free.
pub struct Ledger {
    pub governance_config: GovernanceConfig,
    pub rounds: Vec<RoundEntry>,
    pub ideas: Vec<IdeaEntry>,
    pub deposits: Vec<VoteDeposit>,
    pub delegations: Vec<DelegationRecord>,
    pub vote_records: Vec<VoteRecord>,
}

/// The sum of the first `n` stakes.
pub open spec fn total_staked(deposits: Seq<VoteDeposit>, n: int) -> nat
    decreases n,
{
    if n <= 0 {
        0
    } else {
        total_staked(deposits, n - 1) + deposits[n - 1].deposited_amount as nat
    }
}

/// The weight that the first `n` receipts record for `choice` on `idea`.
pub open spec fn cast_weight(records: Seq<VoteRecord>, idea: Pubkey, choice: VoteChoice, n: int) -> nat
    decreases n,
{
    if n <= 0 {
        0
    } else {
        cast_weight(records, idea, choice, n - 1) + if records[n - 1].idea == idea && records[n
            - 1].vote == choice {
            records[n - 1].weight as nat
        } else {
            0
        }
    }
}

/// The number of votes on `idea` among the first `n` receipts.
pub open spec fn votes_on(records: Seq<VoteRecord>, idea: Pubkey, n: int) -> nat
    decreases n,
{
    if n <= 0 {
        0
    } else {
        votes_on(records, idea, n - 1) + if records[n - 1].idea == idea {
            1nat
        } else {
            0nat
        }
    }
}

/// The weight of all the receipts for `idea`, whatever their choice.
pub open spec fn total_cast(records: Seq<VoteRecord>, idea: Pubkey) -> nat {
    cast_weight(records, idea, VoteChoice::Yes, records.len() as int) + cast_weight(
        records,
        idea,
        VoteChoice::No,
        records.len() as int,
    ) + cast_weight(records, idea, VoteChoice::Abstain, records.len() as int)
}

impl Ledger {
    /// No two rounds share an address.
    pub open spec fn rounds_distinct(self) -> bool {
        forall|i: int, j: int|
            0 <= i < j < self.rounds@.len() ==> (#[trigger] self.rounds@[i]).key != (
            #[trigger] self.rounds@[j]).key
    }

    /// No two ideas share an address.
    pub open spec fn ideas_distinct(self) -> bool {
        forall|i: int, j: int|
            0 <= i < j < self.ideas@.len() ==> (#[trigger] self.ideas@[i]).key != (
            #[trigger] self.ideas@[j]).key
    }

    /// An owner has one stake at most.
    pub open spec fn deposits_distinct(self) -> bool {
        forall|i: int, j: int|
            0 <= i < j < self.deposits@.len() ==> (#[trigger] self.deposits@[i]).authority != (
            #[trigger] self.deposits@[j]).authority
    }

    /// A delegator has one delegation at most, and every stored delegation is
    /// active.
    pub open spec fn delegations_distinct(self) -> bool {
        &&& forall|i: int, j: int|
            0 <= i < j < self.delegations@.len() ==> (#[trigger] self.delegations@[i]).delegator
                != (#[trigger] self.delegations@[j]).delegator
        &&& forall|i: int|
            0 <= i < self.delegations@.len() ==> (#[trigger] self.delegations@[i]).is_active
    }

    /// A voter has one receipt per idea at most.
    pub open spec fn votes_distinct(self) -> bool {
        forall|i: int, j: int|
            0 <= i < j < self.vote_records@.len() ==> !((#[trigger] self.vote_records@[i]).voter
                == (#[trigger] self.vote_records@[j]).voter && self.vote_records@[i].idea
                == self.vote_records@[j].idea)
    }

    /// Every receipt is for a stored idea.
    pub open spec fn votes_have_ideas(self) -> bool {
        forall|i: int|
            0 <= i < self.vote_records@.len() ==> self.idea_at(
                (#[trigger] self.vote_records@[i]).idea,
            ) is Some
    }

    /// The counter of the idea at index `i` for `choice` is the sum over the
    /// idea's receipts, and its number of voters is their number.
    pub open spec fn tally_matches(self, i: int, choice: VoteChoice) -> bool {
        &&& self.ideas@[i].idea.weight_for(choice) == cast_weight(
            self.vote_records@,
            self.ideas@[i].key,
            choice,
            self.vote_records@.len() as int,
        )
        &&& self.ideas@[i].idea.voter_count == votes_on(
            self.vote_records@,
            self.ideas@[i].key,
            self.vote_records@.len() as int,
        )
    }

    /// The counters of every idea are the sums over its receipts: the weight
    /// for each choice, and the number of voters.
    pub open spec fn tallies_match(self) -> bool {
        forall|i: int, choice: VoteChoice|
            0 <= i < self.ideas@.len() ==> #[trigger] self.tally_matches(i, choice)
    }

    /// The ledger is well formed: keys are unique, the round counter counts
    /// the rounds, the total of all stakes is their sum, and every idea's
    /// counters are the sums over its receipts.
    pub open spec fn wf(self) -> bool {
        &&& self.rounds_distinct()
        &&& self.ideas_distinct()
        &&& self.deposits_distinct()
        &&& self.delegations_distinct()
        &&& self.votes_distinct()
        &&& self.votes_have_ideas()
        &&& self.tallies_match()
        &&& self.governance_config.round_count == self.rounds@.len()
        &&& self.governance_config.total_deposited == total_staked(
            self.deposits@,
            self.deposits@.len() as int,
        )
    }

    /// The round stored at `key`, if there is one.
    pub open spec fn round_at(self, key: Pubkey) -> Option<IdeaRound> {
        if exists|i: int| 0 <= i < self.rounds@.len() && (#[trigger] self.rounds@[i]).key == key {
            let i = choose|i: int|
                0 <= i < self.rounds@.len() && (#[trigger] self.rounds@[i]).key == key;
            Some(self.rounds@[i].round)
        } else {
            None
        }
    }

    /// The idea stored at `key`, if there is one.
    pub open spec fn idea_at(self, key: Pubkey) -> Option<Idea> {
        if exists|i: int| 0 <= i < self.ideas@.len() && (#[trigger] self.ideas@[i]).key == key {
            let i = choose|i: int|
                0 <= i < self.ideas@.len() && (#[trigger] self.ideas@[i]).key == key;
            Some(self.ideas@[i].idea)
        } else {
            None
        }
    }

    /// The stake of `owner`, if they have one.
    pub open spec fn stake_of(self, owner: Pubkey) -> Option<VoteDeposit> {
        if exists|i: int|
            0 <= i < self.deposits@.len() && (#[trigger] self.deposits@[i]).authority == owner {
            let i = choose|i: int|
                0 <= i < self.deposits@.len() && (#[trigger] self.deposits@[i]).authority == owner;
            Some(self.deposits@[i])
        } else {
            None
        }
    }

    /// The delegation of `delegator`, if they have one.
    pub open spec fn delegation_of(self, delegator: Pubkey) -> Option<DelegationRecord> {
        if exists|i: int|
            0 <= i < self.delegations@.len() && (#[trigger] self.delegations@[i]).delegator
                == delegator {
            let i = choose|i: int|
                0 <= i < self.delegations@.len() && (#[trigger] self.delegations@[i]).delegator
                    == delegator;
            Some(self.delegations@[i])
        } else {
            None
        }
    }

    /// The receipt of `voter`'s vote on `idea`, if they have voted on it.
    pub open spec fn vote_of(self, voter: Pubkey, idea: Pubkey) -> Option<VoteRecord> {
        if exists|i: int|
            0 <= i < self.vote_records@.len() && (#[trigger] self.vote_records@[i]).voter == voter
                && self.vote_records@[i].idea == idea {
            let i = choose|i: int|
                0 <= i < self.vote_records@.len() && (#[trigger] self.vote_records@[i]).voter
                    == voter && self.vote_records@[i].idea == idea;
            Some(self.vote_records@[i])
        } else {
            None
        }
    }

    /// A ledger with the given configuration and no records. The
    /// configuration must count no rounds and no stakes.
    pub fn new(governance_config: GovernanceConfig) -> (ledger: Ledger)
        requires
            governance_config.round_count == 0,
            governance_config.total_deposited == 0,
        ensures
            ledger.wf(),
            ledger.governance_config == governance_config,
            ledger.rounds@.len() == 0,
            ledger.ideas@.len() == 0,
            ledger.deposits@.len() == 0,
            ledger.delegations@.len() == 0,
            ledger.vote_records@.len() == 0,
    {
        Ledger {
            governance_config,
            rounds: Vec::new(),
            ideas: Vec::new(),
            deposits: Vec::new(),
            delegations: Vec::new(),
            vote_records: Vec::new(),
        }
    }

    /// Where the round at `key` is stored.
    pub fn find_round(&self, key: &Pubkey) -> (found: Option<usize>)
        ensures
            match found {
                Some(i) => i < self.rounds@.len() && self.rounds@[i as int].key == *key
                    && self.round_at(*key) is Some,
                None => self.round_at(*key) is None,
            },
            self.rounds_distinct() && found is Some ==> self.round_at(*key) == Some(
                self.rounds@[found->0 as int].round,
            ),
    {
        let mut i: usize = 0;
        while i < self.rounds.len()
            invariant
                i <= self.rounds@.len(),
                forall|j: int| 0 <= j < i ==> (#[trigger] self.rounds@[j]).key != *key,
            decreases self.rounds@.len() - i,
        {
            if self.rounds[i].key == *key {
                return Some(i);
            }
            i += 1;
        }
        None
    }

    /// Where the idea at `key` is stored.
    pub fn find_idea(&self, key: &Pubkey) -> (found: Option<usize>)
        ensures
            match found {
                Some(i) => i < self.ideas@.len() && self.ideas@[i as int].key == *key
                    && self.idea_at(*key) is Some,
                None => self.idea_at(*key) is None,
            },
            self.ideas_distinct() && found is Some ==> self.idea_at(*key) == Some(
                self.ideas@[found->0 as int].idea,
            ),
    {
        let mut i: usize = 0;
        while i < self.ideas.len()
            invariant
                i <= self.ideas@.len(),
                forall|j: int| 0 <= j < i ==> (#[trigger] self.ideas@[j]).key != *key,
            decreases self.ideas@.len() - i,
        {
            if self.ideas[i].key == *key {
                return Some(i);
            }
            i += 1;
        }
        None
    }

    /// Where the stake of `owner` is stored.
    pub fn find_deposit(&self, owner: &Pubkey) -> (found: Option<usize>)
        ensures
            match found {
                Some(i) => i < self.deposits@.len() && self.deposits@[i as int].authority == *owner
                    && self.stake_of(*owner) is Some,
                None => self.stake_of(*owner) is None,
            },
            self.deposits_distinct() && found is Some ==> self.stake_of(*owner) == Some(
                self.deposits@[found->0 as int],
            ),
    {
        let mut i: usize = 0;
        while i < self.deposits.len()
            invariant
                i <= self.deposits@.len(),
                forall|j: int| 0 <= j < i ==> (#[trigger] self.deposits@[j]).authority != *owner,
            decreases self.deposits@.len() - i,
        {
            if self.deposits[i].authority == *owner {
                return Some(i);
            }
            i += 1;
        }
        None
    }

    /// Where the delegation of `delegator` is stored.
    pub fn find_delegation(&self, delegator: &Pubkey) -> (found: Option<usize>)
        ensures
            match found {
                Some(i) => i < self.delegations@.len() && self.delegations@[i as int].delegator
                    == *delegator && self.delegation_of(*delegator) is Some,
                None => self.delegation_of(*delegator) is None,
            },
            self.delegations_distinct() && found is Some ==> self.delegation_of(*delegator) == Some(
                self.delegations@[found->0 as int],
            ),
    {
        let mut i: usize = 0;
        while i < self.delegations.len()
            invariant
                i <= self.delegations@.len(),
                forall|j: int|
                    0 <= j < i ==> (#[trigger] self.delegations@[j]).delegator != *delegator,
            decreases self.delegations@.len() - i,
        {
            if self.delegations[i].delegator == *delegator {
                return Some(i);
            }
            i += 1;
        }
        None
    }

    /// Where the receipt of `voter`'s vote on `idea` is stored.
    pub fn find_vote(&self, voter: &Pubkey, idea: &Pubkey) -> (found: Option<usize>)
        ensures
            match found {
                Some(i) => i < self.vote_records@.len() && self.vote_records@[i as int].voter
                    == *voter && self.vote_records@[i as int].idea == *idea && self.vote_of(
                    *voter,
                    *idea,
                ) is Some,
                None => self.vote_of(*voter, *idea) is None,
            },
            self.votes_distinct() && found is Some ==> self.vote_of(*voter, *idea) == Some(
                self.vote_records@[found->0 as int],
            ),
    {
        let mut i: usize = 0;
        while i < self.vote_records.len()
            invariant
                i <= self.vote_records@.len(),
                forall|j: int|
                    0 <= j < i ==> !((#[trigger] self.vote_records@[j]).voter == *voter
                        && self.vote_records@[j].idea == *idea),
            decreases self.vote_records@.len() - i,
        {
            if self.vote_records[i].voter == *voter && self.vote_records[i].idea == *idea {
                return Some(i);
            }
            i += 1;
        }
        None
    }
}

/// The sum of the first `n` stakes does not depend on what follows them.
pub proof fn lemma_total_staked_prefix(a: Seq<VoteDeposit>, b: Seq<VoteDeposit>, n: int)
    requires
        n <= a.len(),
        n <= b.len(),
        forall|i: int| 0 <= i < n ==> a[i].deposited_amount == b[i].deposited_amount,
    ensures
        total_staked(a, n) == total_staked(b, n),
    decreases n,
{
    if n > 0 {
        lemma_total_staked_prefix(a, b, n - 1);
    }
}

/// Replacing the stake at `i` changes the sum by the difference of the two
/// amounts.
pub proof fn lemma_total_staked_update(deposits: Seq<VoteDeposit>, i: int, d: VoteDeposit, n: int)
    requires
        0 <= i < deposits.len(),
        0 <= n <= deposits.len(),
    ensures
        i < n ==> total_staked(deposits.update(i, d), n) + deposits[i].deposited_amount
            == total_staked(deposits, n) + d.deposited_amount,
        i >= n ==> total_staked(deposits.update(i, d), n) == total_staked(deposits, n),
        i < n ==> deposits[i].deposited_amount <= total_staked(deposits, n),
    decreases n,
{
    if n > 0 {
        lemma_total_staked_update(deposits, i, d, n - 1);
    }
}

/// The weight recorded by the first `n` receipts does not depend on what
/// follows them; nor does their number.
pub proof fn lemma_cast_weight_prefix(
    a: Seq<VoteRecord>,
    b: Seq<VoteRecord>,
    idea: Pubkey,
    choice: VoteChoice,
    n: int,
)
    requires
        n <= a.len(),
        n <= b.len(),
        forall|i: int| 0 <= i < n ==> a[i] == b[i],
    ensures
        cast_weight(a, idea, choice, n) == cast_weight(b, idea, choice, n),
        votes_on(a, idea, n) == votes_on(b, idea, n),
    decreases n,
{
    if n > 0 {
        lemma_cast_weight_prefix(a, b, idea, choice, n - 1);
    }
}

/// Receipts for other ideas add nothing to an idea's sums.
pub proof fn lemma_cast_weight_none(records: Seq<VoteRecord>, idea: Pubkey, choice: VoteChoice, n: int)
    requires
        n <= records.len(),
        forall|i: int| 0 <= i < n ==> (#[trigger] records[i]).idea != idea,
    ensures
        cast_weight(records, idea, choice, n) == 0,
        votes_on(records, idea, n) == 0,
    decreases n,
{
    if n > 0 {
        lemma_cast_weight_none(records, idea, choice, n - 1);
    }
}

impl Ledger {
    /// Whether two ledgers hold the same records.
    pub open spec fn same_as(self, other: Ledger) -> bool {
        &&& self.governance_config == other.governance_config
        &&& self.rounds@ == other.rounds@
        &&& self.ideas@ == other.ideas@
        &&& self.deposits@ == other.deposits@
        &&& self.delegations@ == other.delegations@
        &&& self.vote_records@ == other.vote_records@
    }

    /// A stored round is the round at its key.
    pub proof fn lemma_round_at(self, i: int)
        requires
            self.rounds_distinct(),
            0 <= i < self.rounds@.len(),
        ensures
            self.round_at(self.rounds@[i].key) == Some(self.rounds@[i].round),
    {
    }

    /// A stored idea is the idea at its key.
    pub proof fn lemma_idea_at(self, i: int)
        requires
            self.ideas_distinct(),
            0 <= i < self.ideas@.len(),
        ensures
            self.idea_at(self.ideas@[i].key) == Some(self.ideas@[i].idea),
    {
    }

    /// A stored stake is the stake of its owner.
    pub proof fn lemma_stake_of(self, i: int)
        requires
            self.deposits_distinct(),
            0 <= i < self.deposits@.len(),
        ensures
            self.stake_of(self.deposits@[i].authority) == Some(self.deposits@[i]),
    {
    }

    /// A stored delegation is the delegation of its delegator.
    pub proof fn lemma_delegation_of(self, i: int)
        requires
            self.delegations_distinct(),
            0 <= i < self.delegations@.len(),
        ensures
            self.delegation_of(self.delegations@[i].delegator) == Some(self.delegations@[i]),
    {
    }

    /// A stored receipt is the receipt of its voter's vote on its idea.
    pub proof fn lemma_vote_of(self, i: int)
        requires
            self.votes_distinct(),
            0 <= i < self.vote_records@.len(),
        ensures
            self.vote_of(self.vote_records@[i].voter, self.vote_records@[i].idea) == Some(
                self.vote_records@[i],
            ),
    {
    }

    /// What replacing the stake at `i` by `d`, a stake of the same owner,
    /// does to the store of stakes.
    pub proof fn lemma_deposit_replaced(self, new: Ledger, i: int, d: VoteDeposit)
        requires
            self.deposits_distinct(),
            0 <= i < self.deposits@.len(),
            d.authority == self.deposits@[i].authority,
            new.deposits@ == self.deposits@.update(i, d),
        ensures
            new.deposits_distinct(),
            new.stake_of(d.authority) == Some(d),
            forall|o: Pubkey| o != d.authority ==> new.stake_of(o) == self.stake_of(o),
            total_staked(new.deposits@, new.deposits@.len() as int) + self.deposits@[i].deposited_amount
                == total_staked(self.deposits@, self.deposits@.len() as int) + d.deposited_amount,
    {
        lemma_total_staked_update(self.deposits@, i, d, self.deposits@.len() as int);
        new.lemma_stake_of(i);
        assert forall|o: Pubkey| o != d.authority implies new.stake_of(o) == self.stake_of(o) by {
            if self.stake_of(o) is Some {
                let k = choose|k: int|
                    0 <= k < self.deposits@.len() && (#[trigger] self.deposits@[k]).authority == o;
                assert(new.deposits@[k] == self.deposits@[k]);
                self.lemma_stake_of(k);
                new.lemma_stake_of(k);
            } else if new.stake_of(o) is Some {
                let k = choose|k: int|
                    0 <= k < new.deposits@.len() && (#[trigger] new.deposits@[k]).authority == o;
                assert(self.deposits@[k].authority == o);
            }
        }
    }

    /// What adding the stake `d` of an owner without one does to the store of
    /// stakes.
    pub proof fn lemma_deposit_added(self, new: Ledger, d: VoteDeposit)
        requires
            self.deposits_distinct(),
            self.stake_of(d.authority) is None,
            new.deposits@ == self.deposits@.push(d),
        ensures
            new.deposits_distinct(),
            new.stake_of(d.authority) == Some(d),
            forall|o: Pubkey| o != d.authority ==> new.stake_of(o) == self.stake_of(o),
            total_staked(new.deposits@, new.deposits@.len() as int) == total_staked(
                self.deposits@,
                self.deposits@.len() as int,
            ) + d.deposited_amount,
    {
        let n = self.deposits@.len() as int;
        lemma_total_staked_prefix(self.deposits@, new.deposits@, n);
        assert forall|k: int| 0 <= k < n implies (#[trigger] new.deposits@[k]).authority
            != d.authority by {
            assert(self.deposits@[k].authority != d.authority);
        }
        new.lemma_stake_of(n);
        assert forall|o: Pubkey| o != d.authority implies new.stake_of(o) == self.stake_of(o) by {
            if self.stake_of(o) is Some {
                let k = choose|k: int|
                    0 <= k < self.deposits@.len() && (#[trigger] self.deposits@[k]).authority == o;
                assert(new.deposits@[k] == self.deposits@[k]);
                self.lemma_stake_of(k);
                new.lemma_stake_of(k);
            } else if new.stake_of(o) is Some {
                let k = choose|k: int|
                    0 <= k < new.deposits@.len() && (#[trigger] new.deposits@[k]).authority == o;
                assert(self.deposits@[k].authority == o);
            }
        }
    }
}

impl Ledger {
    /// What replacing the round at `i` does to the store of rounds.
    pub proof fn lemma_round_replaced(self, new: Ledger, i: int, round: IdeaRound)
        requires
            self.rounds_distinct(),
            0 <= i < self.rounds@.len(),
            new.rounds@ == self.rounds@.update(i, RoundEntry { key: self.rounds@[i].key, round }),
        ensures
            new.rounds_distinct(),
            new.round_at(self.rounds@[i].key) == Some(round),
            forall|k: Pubkey| k != self.rounds@[i].key ==> new.round_at(k) == self.round_at(k),
    {
        new.lemma_round_at(i);
        assert forall|k: Pubkey| k != self.rounds@[i].key implies new.round_at(k) == self.round_at(
            k,
        ) by {
            if self.round_at(k) is Some {
                let j = choose|j: int|
                    0 <= j < self.rounds@.len() && (#[trigger] self.rounds@[j]).key == k;
                assert(new.rounds@[j] == self.rounds@[j]);
                self.lemma_round_at(j);
                new.lemma_round_at(j);
            } else if new.round_at(k) is Some {
                let j = choose|j: int|
                    0 <= j < new.rounds@.len() && (#[trigger] new.rounds@[j]).key == k;
                assert(self.rounds@[j].key == k);
            }
        }
    }

    /// What adding a round at a free key does to the store of rounds.
    pub proof fn lemma_round_added(self, new: Ledger, entry: RoundEntry)
        requires
            self.rounds_distinct(),
            self.round_at(entry.key) is None,
            new.rounds@ == self.rounds@.push(entry),
        ensures
            new.rounds_distinct(),
            new.round_at(entry.key) == Some(entry.round),
            forall|k: Pubkey| k != entry.key ==> new.round_at(k) == self.round_at(k),
    {
        let n = self.rounds@.len() as int;
        assert forall|j: int| 0 <= j < n implies (#[trigger] new.rounds@[j]).key != entry.key by {
            assert(self.rounds@[j].key != entry.key);
        }
        new.lemma_round_at(n);
        assert forall|k: Pubkey| k != entry.key implies new.round_at(k) == self.round_at(k) by {
            if self.round_at(k) is Some {
                let j = choose|j: int|
                    0 <= j < self.rounds@.len() && (#[trigger] self.rounds@[j]).key == k;
                assert(new.rounds@[j] == self.rounds@[j]);
                self.lemma_round_at(j);
                new.lemma_round_at(j);
            } else if new.round_at(k) is Some {
                let j = choose|j: int|
                    0 <= j < new.rounds@.len() && (#[trigger] new.rounds@[j]).key == k;
                assert(self.rounds@[j].key == k);
            }
        }
    }

    /// What replacing the idea at `i` does to the store of ideas.
    pub proof fn lemma_idea_replaced(self, new: Ledger, i: int, idea: Idea)
        requires
            self.ideas_distinct(),
            0 <= i < self.ideas@.len(),
            new.ideas@ == self.ideas@.update(i, IdeaEntry { key: self.ideas@[i].key, idea }),
        ensures
            new.ideas_distinct(),
            new.idea_at(self.ideas@[i].key) == Some(idea),
            forall|k: Pubkey| k != self.ideas@[i].key ==> new.idea_at(k) == self.idea_at(k),
            forall|k: Pubkey| self.idea_at(k) is Some ==> new.idea_at(k) is Some,
    {
        new.lemma_idea_at(i);
        assert forall|k: Pubkey| k != self.ideas@[i].key implies new.idea_at(k) == self.idea_at(
            k,
        ) by {
            if self.idea_at(k) is Some {
                let j = choose|j: int|
                    0 <= j < self.ideas@.len() && (#[trigger] self.ideas@[j]).key == k;
                assert(new.ideas@[j] == self.ideas@[j]);
                self.lemma_idea_at(j);
                new.lemma_idea_at(j);
            } else if new.idea_at(k) is Some {
                let j = choose|j: int|
                    0 <= j < new.ideas@.len() && (#[trigger] new.ideas@[j]).key == k;
                assert(self.ideas@[j].key == k);
            }
        }
    }

    /// What adding an idea at a free key does to the store of ideas.
    pub proof fn lemma_idea_added(self, new: Ledger, entry: IdeaEntry)
        requires
            self.ideas_distinct(),
            self.idea_at(entry.key) is None,
            new.ideas@ == self.ideas@.push(entry),
        ensures
            new.ideas_distinct(),
            new.idea_at(entry.key) == Some(entry.idea),
            forall|k: Pubkey| k != entry.key ==> new.idea_at(k) == self.idea_at(k),
            forall|k: Pubkey| self.idea_at(k) is Some ==> new.idea_at(k) is Some,
    {
        let n = self.ideas@.len() as int;
        assert forall|j: int| 0 <= j < n implies (#[trigger] new.ideas@[j]).key != entry.key by {
            assert(self.ideas@[j].key != entry.key);
        }
        new.lemma_idea_at(n);
        assert forall|k: Pubkey| k != entry.key implies new.idea_at(k) == self.idea_at(k) by {
            if self.idea_at(k) is Some {
                let j = choose|j: int|
                    0 <= j < self.ideas@.len() && (#[trigger] self.ideas@[j]).key == k;
                assert(new.ideas@[j] == self.ideas@[j]);
                self.lemma_idea_at(j);
                new.lemma_idea_at(j);
            } else if new.idea_at(k) is Some {
                let j = choose|j: int|
                    0 <= j < new.ideas@.len() && (#[trigger] new.ideas@[j]).key == k;
                assert(self.ideas@[j].key == k);
            }
        }
    }
}

impl Ledger {
    /// What adding the delegation of a delegator without one does to the
    /// store of delegations.
    pub proof fn lemma_delegation_added(self, new: Ledger, record: DelegationRecord)
        requires
            self.delegations_distinct(),
            self.delegation_of(record.delegator) is None,
            record.is_active,
            new.delegations@ == self.delegations@.push(record),
        ensures
            new.delegations_distinct(),
            new.delegation_of(record.delegator) == Some(record),
            forall|k: Pubkey|
                k != record.delegator ==> new.delegation_of(k) == self.delegation_of(k),
    {
        let n = self.delegations@.len() as int;
        assert forall|j: int| 0 <= j < n implies (#[trigger] new.delegations@[j]).delegator
            != record.delegator by {
            assert(self.delegations@[j].delegator != record.delegator);
        }
        assert forall|j: int| 0 <= j < new.delegations@.len() implies (
        #[trigger] new.delegations@[j]).is_active by {
            if j < n {
                assert(self.delegations@[j].is_active);
            }
        }
        new.lemma_delegation_of(n);
        assert forall|k: Pubkey| k != record.delegator implies new.delegation_of(k)
            == self.delegation_of(k) by {
            if self.delegation_of(k) is Some {
                let j = choose|j: int|
                    0 <= j < self.delegations@.len() && (#[trigger] self.delegations@[j]).delegator
                        == k;
                assert(new.delegations@[j] == self.delegations@[j]);
                self.lemma_delegation_of(j);
                new.lemma_delegation_of(j);
            } else if new.delegation_of(k) is Some {
                let j = choose|j: int|
                    0 <= j < new.delegations@.len() && (#[trigger] new.delegations@[j]).delegator
                        == k;
                assert(self.delegations@[j].delegator == k);
            }
        }
    }

    /// What removing the delegation at `i` does to the store of delegations.
    pub proof fn lemma_delegation_removed(self, new: Ledger, i: int)
        requires
            self.delegations_distinct(),
            0 <= i < self.delegations@.len(),
            new.delegations@ == self.delegations@.remove(i),
        ensures
            new.delegations_distinct(),
            new.delegation_of(self.delegations@[i].delegator) is None,
            forall|k: Pubkey|
                k != self.delegations@[i].delegator ==> new.delegation_of(k) == self.delegation_of(
                    k,
                ),
    {
        let gone = self.delegations@[i].delegator;
        assert forall|j: int| 0 <= j < new.delegations@.len() implies (
        #[trigger] new.delegations@[j]) == self.delegations@[if j < i {
            j
        } else {
            j + 1
        }] by {}
        assert forall|a: int, b: int| 0 <= a < b < new.delegations@.len() implies (
        #[trigger] new.delegations@[a]).delegator != (#[trigger] new.delegations@[b]).delegator by {
            let a2 = if a < i { a } else { a + 1 };
            let b2 = if b < i { b } else { b + 1 };
            assert(self.delegations@[a2].delegator != self.delegations@[b2].delegator);
        }
        assert forall|j: int| 0 <= j < new.delegations@.len() implies (
        #[trigger] new.delegations@[j]).is_active by {
            let j2 = if j < i { j } else { j + 1 };
            assert(self.delegations@[j2].is_active);
        }
        assert forall|j: int| 0 <= j < new.delegations@.len() implies (
        #[trigger] new.delegations@[j]).delegator != gone by {
            let j2 = if j < i { j } else { j + 1 };
            if j2 < i {
                assert(self.delegations@[j2].delegator != self.delegations@[i].delegator);
            } else {
                assert(self.delegations@[i].delegator != self.delegations@[j2].delegator);
            }
        }
        assert forall|k: Pubkey| k != gone implies new.delegation_of(k) == self.delegation_of(
            k,
        ) by {
            if self.delegation_of(k) is Some {
                let j = choose|j: int|
                    0 <= j < self.delegations@.len() && (#[trigger] self.delegations@[j]).delegator
                        == k;
                let j2 = if j < i { j } else { j - 1 };
                assert(new.delegations@[j2] == self.delegations@[j]);
                self.lemma_delegation_of(j);
                new.lemma_delegation_of(j2);
            } else if new.delegation_of(k) is Some {
                let j = choose|j: int|
                    0 <= j < new.delegations@.len() && (#[trigger] new.delegations@[j]).delegator
                        == k;
                let j2 = if j < i { j } else { j + 1 };
                assert(self.delegations@[j2].delegator == k);
            }
        }
    }

    /// What adding the receipt of a first vote of its voter on its idea does
    /// to the store of receipts.
    pub proof fn lemma_vote_added(self, new: Ledger, record: VoteRecord)
        requires
            self.votes_distinct(),
            self.vote_of(record.voter, record.idea) is None,
            new.vote_records@ == self.vote_records@.push(record),
        ensures
            new.votes_distinct(),
            new.vote_of(record.voter, record.idea) == Some(record),
            forall|v: Pubkey, k: Pubkey|
                !(v == record.voter && k == record.idea) ==> new.vote_of(v, k) == self.vote_of(
                    v,
                    k,
                ),
            forall|k: Pubkey, choice: VoteChoice|
                #![trigger cast_weight(new.vote_records@, k, choice, new.vote_records@.len() as int)]
                cast_weight(new.vote_records@, k, choice, new.vote_records@.len() as int)
                    == cast_weight(self.vote_records@, k, choice, self.vote_records@.len() as int)
                    + if k == record.idea && choice == record.vote {
                    record.weight as nat
                } else {
                    0
                },
            forall|k: Pubkey|
                #![trigger votes_on(new.vote_records@, k, new.vote_records@.len() as int)]
                votes_on(new.vote_records@, k, new.vote_records@.len() as int) == votes_on(
                    self.vote_records@,
                    k,
                    self.vote_records@.len() as int,
                ) + if k == record.idea {
                    1nat
                } else {
                    0nat
                },
    {
        let n = self.vote_records@.len() as int;
        assert forall|j: int| 0 <= j < n implies !((#[trigger] new.vote_records@[j]).voter
            == record.voter && new.vote_records@[j].idea == record.idea) by {
            assert(!(self.vote_records@[j].voter == record.voter && self.vote_records@[j].idea
                == record.idea));
        }
        new.lemma_vote_of(n);
        assert forall|v: Pubkey, k: Pubkey|
            !(v == record.voter && k == record.idea) implies new.vote_of(v, k) == self.vote_of(
            v,
            k,
        ) by {
            if self.vote_of(v, k) is Some {
                let j = choose|j: int|
                    0 <= j < self.vote_records@.len() && (#[trigger] self.vote_records@[j]).voter
                        == v && self.vote_records@[j].idea == k;
                assert(new.vote_records@[j] == self.vote_records@[j]);
                self.lemma_vote_of(j);
                new.lemma_vote_of(j);
            } else if new.vote_of(v, k) is Some {
                let j = choose|j: int|
                    0 <= j < new.vote_records@.len() && (#[trigger] new.vote_records@[j]).voter == v
                        && new.vote_records@[j].idea == k;
                assert(self.vote_records@[j].voter == v && self.vote_records@[j].idea == k);
            }
        }
        assert forall|k: Pubkey, choice: VoteChoice|
            #![trigger cast_weight(new.vote_records@, k, choice, new.vote_records@.len() as int)]
            cast_weight(new.vote_records@, k, choice, new.vote_records@.len() as int)
                == cast_weight(self.vote_records@, k, choice, self.vote_records@.len() as int)
                + if k == record.idea && choice == record.vote {
                record.weight as nat
            } else {
                0
            } by {
            lemma_cast_weight_prefix(self.vote_records@, new.vote_records@, k, choice, n);
        }
        assert forall|k: Pubkey|
            #![trigger votes_on(new.vote_records@, k, new.vote_records@.len() as int)]
            votes_on(new.vote_records@, k, new.vote_records@.len() as int) == votes_on(
                self.vote_records@,
                k,
                self.vote_records@.len() as int,
            ) + if k == record.idea {
                1nat
            } else {
                0nat
            } by {
            lemma_cast_weight_prefix(self.vote_records@, new.vote_records@, k, VoteChoice::Yes, n);
        }
    }
}

} // verus!
