//! The governance engine: the member registry, the configuration, the
//! proposal store, the vote ledgers and tallies, and the record registry
//! that passed publication proposals write to, threaded through every
//! operation as one state value.
use vstd::prelude::*;

use crate::error::ContractError;
use crate::helpers::{config_valid, validate_dao_config, validate_voting_period, MAX_VOTING_PERIOD};
use crate::ledger::{
    lemma_count_positive, count_choice, find_vote, has_voted, ledger_after, lemma_record_keeps_one_vote_each,
    lemma_record_vote, one_vote_each, prior_choice, tally_matches, vote_index,
};
use crate::msg::{
    DataVersion, DaoConfig, ExecutionData, InstantiateMsg, MemberAction, Proposal, ProposalStatus,
    ProposalType, Vote, VoteChoice, VoteCount, VoteReceipt, ExecutionOutcome, ContractInfoResponse,
    AccessLevel, Citation, Coin, Payout, TokenInfoResponse,
};
use crate::registry::{new_item, DataItem, Registry};
use crate::helpers::{
    ensure_can_execute_proposal, ensure_can_vote_on_proposal, execute_gate_error, vote_gate_error,
};
use crate::tally::{
    tally_without_voter, without_voter, cannot_reach_threshold, meets_threshold, reaches_threshold, tally_after, threshold_out_of_reach,
};
use crate::text::{
    ascending, lemma_ascending_distinct, lemma_ascending_insert, lemma_ascending_remove,
    lemma_text_lt_total, text_less, text_lt, blank, contains_char, decimal, decimal_string, has_char, has_prefix, is_blank, same_text, starts_with,
};
use vstd::string::StringExecFns;

verus! {

/// Voting window of a new instance: seven days.
pub const DEFAULT_VOTING_PERIOD: u64 = 604800;

/// Approval threshold of a new instance, in percent.
pub const DEFAULT_APPROVAL_THRESHOLD: u64 = 51;

/// Smallest membership of a new instance.
pub const DEFAULT_MIN_MEMBERS: u64 = 1;

/// Citation fee of a new instance.
pub const DEFAULT_BASE_CITATION_FEE: u128 = 100000;

/// Everything the contract stores.
pub struct ContractState {
    name: String,
    symbol: String,
    owner: String,
    base_citation_fee: u128,
    members: Vec<String>,
    config: DaoConfig,
    proposals: Vec<Proposal>,
    tallies: Vec<VoteCount>,
    ballots: Vec<Vec<Vote>>,
    registry: Registry,
}

impl ContractState {
    pub closed spec fn name(&self) -> Seq<char> {
        self.name@
    }

    pub closed spec fn symbol(&self) -> Seq<char> {
        self.symbol@
    }

    pub closed spec fn owner(&self) -> Seq<char> {
        self.owner@
    }

    pub closed spec fn base_citation_fee(&self) -> u128 {
        self.base_citation_fee
    }

    /// The members, in strictly ascending order.
    pub closed spec fn members(&self) -> Seq<Seq<char>> {
        self.members@.map_values(|m: String| m@)
    }

    pub closed spec fn config(&self) -> DaoConfig {
        self.config
    }

    /// Every proposal ever made; proposal `i` has id `i`.
    pub closed spec fn proposals(&self) -> Seq<Proposal> {
        self.proposals@
    }

    /// The tally of each proposal.
    pub closed spec fn tallies(&self) -> Seq<VoteCount> {
        self.tallies@
    }

    /// The vote ledger of each proposal.
    pub closed spec fn ballots(&self) -> Seq<Seq<Vote>> {
        self.ballots@.map_values(|b: Vec<Vote>| b@)
    }

    pub closed spec fn registry(&self) -> Registry {
        self.registry
    }

    /// Everything but the proposals, tallies, ledgers and records is as in
    /// `other`.
    pub open spec fn same_setup(&self, other: ContractState) -> bool {
        &&& self.name() == other.name()
        &&& self.symbol() == other.symbol()
        &&& self.owner() == other.owner()
        &&& self.base_citation_fee() == other.base_citation_fee()
        &&& self.members() == other.members()
        &&& self.config() == other.config()
    }

    /// `next` is `self` with one new proposal: the next id, made by
    /// `proposer` at `now`, open until `now` plus the voting period, active,
    /// with an empty ledger and a tally whose eligible count is the current
    /// membership.
    pub open spec fn with_new_proposal(
        &self,
        next: ContractState,
        proposer: Seq<char>,
        kind: ProposalType,
        title: Seq<char>,
        data: ExecutionData,
        now: u64,
    ) -> bool {
        let p = next.proposals().last();
        &&& next.same_setup(*self)
        &&& next.registry() == self.registry()
        &&& next.proposals().len() == self.proposals().len() + 1
        &&& next.proposals().drop_last() == self.proposals()
        &&& p.id == self.proposals().len()
        &&& p.proposer@ == proposer
        &&& p.proposal_type == kind
        &&& p.title@ == title
        &&& p.created_at == now
        &&& p.voting_end == now + self.config().voting_period
        &&& p.status == ProposalStatus::Active
        &&& p.execution_data == Some(data)
        &&& next.tallies() == self.tallies().push(
            VoteCount { yes: 0, no: 0, abstain: 0, total_eligible: self.member_count() as u64 },
        )
        &&& next.ballots() == self.ballots().push(Seq::empty())
    }

    /// Only the records differ from `other`.
    pub open spec fn same_governance(&self, other: ContractState) -> bool {
        &&& self.same_setup(other)
        &&& self.proposals() == other.proposals()
        &&& self.tallies() == other.tallies()
        &&& self.ballots() == other.ballots()
    }

    pub open spec fn is_member(&self, a: Seq<char>) -> bool {
        self.members().contains(a)
    }

    pub open spec fn member_count(&self) -> int {
        self.members().len() as int
    }

    /// The invariant of the store: a valid configuration, at least one
    /// member, the members in strictly ascending order (so none twice), one tally and one ledger per proposal, each
    /// ledger holding one vote per voter and each tally counting exactly its
    /// ledger.
    pub open spec fn wf(&self) -> bool {
        &&& config_valid(self.config())
        &&& self.member_count() >= 1
        &&& self.members().no_duplicates()
        &&& ascending(self.members())
        &&& self.tallies().len() == self.proposals().len()
        &&& self.ballots().len() == self.proposals().len()
        &&& forall|i: int| 0 <= i < self.proposals().len() ==> (#[trigger] self.proposals()[i]).id == i
        &&& forall|i: int|
            0 <= i < self.proposals().len() ==> tally_matches(
                #[trigger] self.tallies()[i],
                self.ballots()[i],
            )
        &&& forall|i: int| 0 <= i < self.proposals().len() ==> one_vote_each(#[trigger] self.ballots()[i])
        &&& self.registry().wf()
    }

    /// Whether `a` is a member.
    pub fn has_member(&self, a: &String) -> (r: bool)
        ensures
            r == self.is_member(a@),
    {
        let mut i: usize = 0;
        while i < self.members.len()
            invariant
                i <= self.members@.len(),
                forall|j: int| 0 <= j < i ==> self.members@[j]@ != a@,
            decreases self.members@.len() - i,
        {
            if self.members[i] == *a {
                assert(self.members()[i as int] == a@);
                return true;
            }
            i = i + 1;
        }
        assert(!self.members().contains(a@)) by {
            if self.members().contains(a@) {
                let k = choose|k: int| 0 <= k < self.members().len() && self.members()[k] == a@;
                assert(self.members@[k]@ == a@);
            }
        }
        false
    }

    /// Number of members.
    pub fn count_members(&self) -> (r: u64)
        ensures
            r == self.member_count(),
    {
        self.members.len() as u64
    }

    /// The governance configuration.
    pub fn dao_config(&self) -> (r: DaoConfig)
        ensures
            r == self.config(),
    {
        self.config
    }

    /// Number of proposals made so far, which is also the next id.
    pub fn proposal_count(&self) -> (r: u64)
        ensures
            r == self.proposals().len(),
    {
        self.proposals.len() as u64
    }

    /// Stores a new active proposal and its empty tally and ledger, and
    /// returns its id.
    fn open_proposal(
        &mut self,
        proposer: &String,
        kind: ProposalType,
        title: String,
        description: String,
        data: ExecutionData,
        now: u64,
    ) -> (r: u64)
        requires
            old(self).wf(),
            now <= u64::MAX - MAX_VOTING_PERIOD,
        ensures
            final(self).wf(),
            r == old(self).proposals().len(),
            old(self).with_new_proposal(*final(self), proposer@, kind, title@, data, now),
            final(self).proposals().last().description == description,
    {
        let id = self.proposals.len() as u64;
        let p = Proposal {
            id,
            proposer: proposer.clone(),
            proposal_type: kind,
            title,
            description,
            created_at: now,
            voting_end: now + self.config.voting_period,
            status: ProposalStatus::Active,
            execution_data: Some(data),
        };
        let t = VoteCount { yes: 0, no: 0, abstain: 0, total_eligible: self.members.len() as u64 };
        self.proposals.push(p);
        self.tallies.push(t);
        self.ballots.push(Vec::new());
        proof {
            assert(self.proposals().drop_last() =~= old(self).proposals());
            assert(self.ballots() =~= old(self).ballots().push(Seq::empty()));
            assert(self.members() =~= old(self).members());
            assert forall|i: int| 0 <= i < self.proposals().len() implies tally_matches(
                #[trigger] self.tallies()[i],
                self.ballots()[i],
            ) && one_vote_each(self.ballots()[i]) by {
                if i < old(self).proposals().len() {
                    assert(self.tallies()[i] == old(self).tallies()[i]);
                    assert(self.ballots()[i] == old(self).ballots()[i]);
                }
            }
        }
        id
    }

    /// Moves proposal `i` to `status`.
    fn set_status(&mut self, i: usize, status: ProposalStatus)
        requires
            old(self).wf(),
            i < old(self).proposals().len(),
        ensures
            final(self).wf(),
            final(self).proposals() == old(self).proposals().update(
                i as int,
                Proposal { status, ..old(self).proposals()[i as int] },
            ),
            final(self).same_setup(*old(self)),
            final(self).tallies() == old(self).tallies(),
            final(self).ballots() == old(self).ballots(),
            final(self).registry() == old(self).registry(),
    {
        self.proposals[i].status = status;
        proof {
            assert(self.proposals() =~= old(self).proposals().update(
                i as int,
                Proposal { status, ..old(self).proposals()[i as int] },
            ));
            assert forall|k: int| 0 <= k < self.proposals().len() implies (
            #[trigger] self.proposals()[k]).id == k by {
                assert(old(self).proposals()[k].id == k);
            }
        }
    }

    /// Every tally after a member leaves: each active proposal has one
    /// eligible voter fewer, never below zero; settled proposals keep theirs.
    pub open spec fn tallies_after_removal(&self) -> Seq<VoteCount> {
        Seq::new(
            self.tallies().len(),
            |i: int|
                if self.proposals()[i].status == ProposalStatus::Active {
                    tally_without_voter(self.tallies()[i])
                } else {
                    self.tallies()[i]
                },
        )
    }

    /// Shrinks the eligible count of every active proposal by one. The
    /// departing member's votes stay in the ledgers and in the counters.
    fn update_vote_counts_for_removed_member(&mut self)
        requires
            old(self).wf(),
        ensures
            final(self).wf(),
            final(self).tallies() == old(self).tallies_after_removal(),
            final(self).same_setup(*old(self)),
            final(self).proposals() == old(self).proposals(),
            final(self).ballots() == old(self).ballots(),
            final(self).registry() == old(self).registry(),
    {
        let n = self.tallies.len();
        let mut i: usize = 0;
        while i < n
            invariant
                n == self.tallies@.len(),
                n == old(self).tallies().len(),
                i <= n,
                self.wf(),
                self.same_setup(*old(self)),
                self.proposals() == old(self).proposals(),
                self.ballots() == old(self).ballots(),
                self.registry() == old(self).registry(),
                forall|k: int| 0 <= k < i ==> #[trigger] self.tallies()[k] == old(self).tallies_after_removal()[k],
                forall|k: int| i <= k < n ==> #[trigger] self.tallies()[k] == old(self).tallies()[k],
            decreases n - i,
        {
            assert(self.tallies()[i as int] == old(self).tallies()[i as int]);
            if self.proposals[i].status == ProposalStatus::Active {
                let t = without_voter(self.tallies[i]);
                self.tallies.set(i, t);
                proof {
                    assert forall|k: int| 0 <= k < self.proposals().len() implies tally_matches(
                        #[trigger] self.tallies()[k],
                        self.ballots()[k],
                    ) by {
                        assert(tally_matches(old(self).tallies()[k], self.ballots()[k]) || k != i);
                    }
                }
            }
            assert(self.tallies()[i as int] == old(self).tallies_after_removal()[i as int]);
            i = i + 1;
        }
        assert(self.tallies() =~= old(self).tallies_after_removal());
    }

    /// Admits `a`, who is not yet a member, at its place in the order.
    fn add_member(&mut self, a: String)
        requires
            old(self).wf(),
            !old(self).is_member(a@),
        ensures
            final(self).wf(),
            forall|x: Seq<char>| #[trigger] final(self).is_member(x) <==> old(self).is_member(x) || x == a@,
            final(self).member_count() == old(self).member_count() + 1,
            final(self).config() == old(self).config(),
            final(self).proposals() == old(self).proposals(),
            final(self).tallies() == old(self).tallies(),
            final(self).ballots() == old(self).ballots(),
            final(self).registry() == old(self).registry(),
            final(self).name() == old(self).name(),
            final(self).symbol() == old(self).symbol(),
            final(self).owner() == old(self).owner(),
            final(self).base_citation_fee() == old(self).base_citation_fee(),
    {
        let n = self.members.len();
        let ghost m = self.members();
        let mut k: usize = 0;
        let mut found = false;
        while !found && k < n
            invariant
                n == m.len(),
                m == self.members(),
                k <= n,
                !m.contains(a@),
                found ==> k < n && text_lt(a@, m[k as int]),
                forall|i: int| 0 <= i < k ==> text_lt(#[trigger] m[i], a@),
            decreases n - k + (if found { 0int } else { 1int }),
        {
            if text_less(a.as_str(), self.members[k].as_str()) {
                found = true;
            } else {
                proof {
                    assert(m[k as int] == self.members@[k as int]@);
                    assert(m[k as int] != a@);
                    lemma_text_lt_total(m[k as int], a@);
                }
                k = k + 1;
            }
        }
        let ghost av = a@;
        self.members.insert(k, a);
        proof {
            assert(self.members() =~= m.insert(k as int, av));
            lemma_ascending_insert(m, k as int, av);
            lemma_ascending_distinct(self.members());
            assert forall|x: Seq<char>| #[trigger] self.is_member(x) <==> old(self).is_member(x) || x == av by {
                let t = self.members();
                if self.is_member(x) {
                    let j = choose|j: int| 0 <= j < t.len() && t[j] == x;
                    if j < k {
                        assert(m[j] == x);
                    } else if j > k {
                        assert(m[j - 1] == x);
                    }
                }
                if old(self).is_member(x) {
                    let j = choose|j: int| 0 <= j < m.len() && m[j] == x;
                    if j < k {
                        assert(t[j] == x);
                    } else {
                        assert(t[j + 1] == x);
                    }
                }
                if x == av {
                    assert(t[k as int] == x);
                }
            }
        }
    }

    /// Removes the member standing at `idx`.
    fn remove_member_at(&mut self, idx: usize)
        requires
            old(self).wf(),
            idx < old(self).member_count(),
            old(self).member_count() > 1,
        ensures
            final(self).wf(),
            final(self).members() == old(self).members().remove(idx as int),
            final(self).config() == old(self).config(),
            final(self).proposals() == old(self).proposals(),
            final(self).tallies() == old(self).tallies(),
            final(self).ballots() == old(self).ballots(),
            final(self).registry() == old(self).registry(),
            final(self).name() == old(self).name(),
            final(self).symbol() == old(self).symbol(),
            final(self).owner() == old(self).owner(),
            final(self).base_citation_fee() == old(self).base_citation_fee(),
    {
        self.members.remove(idx);
        proof {
            assert(self.members() =~= old(self).members().remove(idx as int));
            lemma_ascending_remove(old(self).members(), idx as int);
            let m = self.members();
            let o = old(self).members();
            assert forall|a: int, b: int| 0 <= a < m.len() && 0 <= b < m.len() && a != b implies m[a] != m[b] by {
                let oa = if a < idx { a } else { a + 1 };
                let ob = if b < idx { b } else { b + 1 };
                assert(m[a] == o[oa]);
                assert(m[b] == o[ob]);
            }
        }
    }

    /// Where `a` stands among the members, if anywhere.
    fn member_index(&self, a: &String) -> (r: Option<usize>)
        ensures
            r is Some <==> self.is_member(a@),
            r matches Some(j) ==> j < self.member_count() && self.members()[j as int] == a@,
    {
        let mut i: usize = 0;
        while i < self.members.len()
            invariant
                i <= self.members@.len(),
                forall|j: int| 0 <= j < i ==> self.members@[j]@ != a@,
            decreases self.members@.len() - i,
        {
            if self.members[i] == *a {
                assert(self.members()[i as int] == a@);
                return Some(i);
            }
            i = i + 1;
        }
        assert(!self.members().contains(a@)) by {
            if self.members().contains(a@) {
                let k = choose|k: int| 0 <= k < self.members().len() && self.members()[k] == a@;
                assert(self.members@[k]@ == a@);
            }
        }
        None
    }

    /// Proposal `id`.
    pub fn proposal(&self, id: u64) -> (r: Proposal)
        requires
            id < self.proposals().len(),
        ensures
            r == self.proposals()[id as int],
    {
        let _ = self.proposals.len();
        self.proposals[id as usize].clone()
    }

    /// The status of proposal `id`.
    pub fn proposal_status(&self, id: u64) -> (r: ProposalStatus)
        requires
            id < self.proposals().len(),
        ensures
            r == self.proposals()[id as int].status,
    {
        let _ = self.proposals.len();
        self.proposals[id as usize].status
    }

    /// The tally of proposal `id`.
    pub fn tally(&self, id: u64) -> (r: VoteCount)
        requires
            self.wf(),
            id < self.proposals().len(),
        ensures
            r == self.tallies()[id as int],
    {
        let _ = self.tallies.len();
        self.tallies[id as usize]
    }

    /// The vote ledger of proposal `id`.
    pub fn ledger(&self, id: u64) -> (r: &Vec<Vote>)
        requires
            self.wf(),
            id < self.proposals().len(),
        ensures
            r@ == self.ballots()[id as int],
    {
        let _ = self.ballots.len();
        &self.ballots[id as usize]
    }

    /// The vote of `voter` on proposal `id`, if any.
    pub fn vote_of(&self, id: u64, voter: &String) -> (r: Option<Vote>)
        requires
            self.wf(),
            id < self.proposals().len(),
        ensures
            r == (if has_voted(self.ballots()[id as int], voter@) {
                Some(self.ballots()[id as int][vote_index(self.ballots()[id as int], voter@)])
            } else {
                None
            }),
    {
        let _ = self.ballots.len();
        let ledger = &self.ballots[id as usize];
        match find_vote(ledger, voter) {
            Some(j) => {
                proof {
                    let s = self.ballots()[id as int];
                    assert(one_vote_each(s));
                    assert(s[vote_index(s, voter@)].voter@ == voter@);
                }
                Some(ledger[j].clone())
            },
            None => None,
        }
    }

    /// The members, in ascending order.
    pub fn member_list(&self) -> (r: Vec<String>)
        ensures
            r@.map_values(|m: String| m@) == self.members(),
    {
        let mut out: Vec<String> = Vec::new();
        let mut i: usize = 0;
        while i < self.members.len()
            invariant
                i <= self.members@.len(),
                out@.len() == i,
                forall|k: int| 0 <= k < i ==> #[trigger] out@[k]@ == self.members@[k]@,
            decreases self.members@.len() - i,
        {
            out.push(self.members[i].clone());
            i = i + 1;
        }
        assert(out@.map_values(|m: String| m@) =~= self.members());
        out
    }

    /// Name, symbol and owner.
    pub fn info(&self) -> (r: ContractInfoResponse)
        ensures
            r.name@ == self.name(),
            r.symbol@ == self.symbol(),
            r.owner@ == self.owner(),
    {
        ContractInfoResponse { name: self.name.clone(), symbol: self.symbol.clone(), owner: self.owner.clone() }
    }

    /// The citation fee.
    pub fn citation_fee(&self) -> (r: u128)
        ensures
            r == self.base_citation_fee(),
    {
        self.base_citation_fee
    }

    /// The record registry.
    pub fn records(&self) -> (r: &Registry)
        ensures
            *r == self.registry(),
    {
        &self.registry
    }
}

/// A new instance: `msg.owner` is the only member, the configuration is a
/// seven-day window with a 51% threshold and at least one member, and there
/// are no proposals and no records.
pub fn instantiate(msg: InstantiateMsg) -> (r: ContractState)
    ensures
        r.wf(),
        r.name() == msg.name@,
        r.symbol() == msg.symbol@,
        r.owner() == msg.owner@,
        r.base_citation_fee() == DEFAULT_BASE_CITATION_FEE,
        r.members() == seq![msg.owner@],
        r.config() == (DaoConfig {
            voting_period: DEFAULT_VOTING_PERIOD,
            approval_threshold: DEFAULT_APPROVAL_THRESHOLD,
            min_members: DEFAULT_MIN_MEMBERS,
        }),
        r.proposals().len() == 0,
        r.registry().items().len() == 0,
        r.registry().operators().len() == 0,
{
    let mut members: Vec<String> = Vec::new();
    members.push(msg.owner.clone());
    let r = ContractState {
        name: msg.name,
        symbol: msg.symbol,
        owner: msg.owner,
        base_citation_fee: DEFAULT_BASE_CITATION_FEE,
        members,
        config: DaoConfig {
            voting_period: DEFAULT_VOTING_PERIOD,
            approval_threshold: DEFAULT_APPROVAL_THRESHOLD,
            min_members: DEFAULT_MIN_MEMBERS,
        },
        proposals: Vec::new(),
        tallies: Vec::new(),
        ballots: Vec::new(),
        registry: Registry::new(),
    };
    assert(r.members() =~= seq![msg.owner@]);
    r
}

/// A work can be published: no field is blank, the content hash starts
/// with `Qm` or `bafy`, the DOI holds a `/`, and no paper carries the DOI.
pub open spec fn publishable(reg: Registry, ipfs_hash: Seq<char>, doi: Seq<char>, metadata_uri: Seq<char>) -> bool {
    &&& !blank(ipfs_hash)
    &&& !blank(doi)
    &&& !blank(metadata_uri)
    &&& has_prefix(ipfs_hash, "Qm"@) || has_prefix(ipfs_hash, "bafy"@)
    &&& has_char(doi, '/')
    &&& !reg.doi_taken(doi)
}

/// `next` is `reg` with one new public paper: owned by `owner`, price zero,
/// created at `now`, with the given content, metadata and DOI.
pub open spec fn published(
    reg: Registry,
    next: Registry,
    owner: Seq<char>,
    ipfs_hash: Seq<char>,
    doi: Seq<char>,
    metadata_uri: Seq<char>,
    now: u64,
) -> bool {
    &&& next.wf()
    &&& reg.appended(next, next.items().last(), Some(doi), now)
    &&& new_item(owner, ipfs_hash, 0, true, metadata_uri, now, next.items().last())
}

/// The proposal carries a publication payload that can be published.
pub open spec fn payload_publishable(reg: Registry, p: Proposal) -> bool {
    match p.execution_data {
        Some(ExecutionData::ArticlePublication { ipfs_hash, doi, metadata_uri }) => publishable(
            reg,
            ipfs_hash@,
            doi@,
            metadata_uri@,
        ),
        _ => false,
    }
}

/// `next` is `reg` with the proposal's work published, owned by its proposer.
pub open spec fn payload_published(reg: Registry, next: Registry, p: Proposal, now: u64) -> bool {
    match p.execution_data {
        Some(ExecutionData::ArticlePublication { ipfs_hash, doi, metadata_uri }) => published(
            reg,
            next,
            p.proposer@,
            ipfs_hash@,
            doi@,
            metadata_uri@,
            now,
        ),
        _ => false,
    }
}

/// What evaluating proposal `p` with tally `t` does at `now`: a settled
/// proposal keeps its status; an overdue one expires; one that reaches the
/// threshold passes, and a publication proposal is then published at once
/// and executed when it can be; one that can no longer reach the threshold
/// is rejected; any other stays active. Only an executed publication
/// changes the records, from `reg` to `next`.
pub open spec fn evaluation(
    p: Proposal,
    t: VoteCount,
    c: DaoConfig,
    reg: Registry,
    now: u64,
    status: ProposalStatus,
    next: Registry,
) -> bool {
    if p.status != ProposalStatus::Active {
        status == p.status && next == reg
    } else if now > p.voting_end {
        status == ProposalStatus::Expired && next == reg
    } else if reaches_threshold(t, c) {
        if p.proposal_type == ProposalType::ArticlePublication && payload_publishable(reg, p) {
            status == ProposalStatus::Executed && payload_published(reg, next, p, now)
        } else {
            status == ProposalStatus::Passed && next == reg
        }
    } else if cannot_reach_threshold(t, c) {
        status == ProposalStatus::Rejected && next == reg
    } else {
        status == ProposalStatus::Active && next == reg
    }
}

/// Evaluates proposal `proposal_id` at `now` and records the outcome (see
/// `evaluation`). A failed publication leaves the proposal passed, to be
/// executed by hand, and is not reported.
pub fn check_and_update_proposal_status(
    state: &mut ContractState,
    now: u64,
    proposal_id: u64,
) -> (r: Result<ProposalStatus, ContractError>)
    requires
        old(state).wf(),
    ensures
        final(state).wf(),
        r is Err <==> proposal_id >= old(state).proposals().len(),
        r is Err ==> r == Err::<ProposalStatus, ContractError>(ContractError::ProposalNotFound {})
            && *final(state) == *old(state),
        r matches Ok(status) ==> {
            let i = proposal_id as int;
            &&& evaluation(
                old(state).proposals()[i],
                old(state).tallies()[i],
                old(state).config(),
                old(state).registry(),
                now,
                status,
                final(state).registry(),
            )
            &&& final(state).proposals() == old(state).proposals().update(
                i,
                Proposal { status, ..old(state).proposals()[i] },
            )
            &&& final(state).same_setup(*old(state))
            &&& final(state).tallies() == old(state).tallies()
            &&& final(state).ballots() == old(state).ballots()
        },
{
    if proposal_id >= state.proposals.len() as u64 {
        return Err(ContractError::ProposalNotFound {});
    }
    let pid = proposal_id as usize;
    let current = state.proposals[pid].status;
    if current != ProposalStatus::Active {
        proof {
            assert(state.proposals().update(pid as int, Proposal { status: current, ..state.proposals()[pid as int] })
                =~= state.proposals());
        }
        return Ok(current);
    }
    if now > state.proposals[pid].voting_end {
        state.set_status(pid, ProposalStatus::Expired);
        return Ok(ProposalStatus::Expired);
    }
    let tally = state.tallies[pid];
    let config = state.config;
    if meets_threshold(tally, config) {
        let kind = state.proposals[pid].proposal_type;
        state.set_status(pid, ProposalStatus::Passed);
        if kind == ProposalType::ArticlePublication {
            let ghost passed = *state;
            match try_auto_execute_article_proposal(state, now, pid) {
                Ok(_) => {
                    state.set_status(pid, ProposalStatus::Executed);
                    proof {
                        assert(passed.proposals()[pid as int].execution_data
                            == old(state).proposals()[pid as int].execution_data);
                        assert(state.proposals() =~= old(state).proposals().update(
                            pid as int,
                            Proposal { status: ProposalStatus::Executed, ..old(state).proposals()[pid as int] },
                        ));
                    }
                    return Ok(ProposalStatus::Executed);
                },
                Err(_) => {},
            }
        }
        return Ok(ProposalStatus::Passed);
    }
    if threshold_out_of_reach(tally, config) {
        state.set_status(pid, ProposalStatus::Rejected);
        return Ok(ProposalStatus::Rejected);
    }
    proof {
        assert(state.proposals().update(pid as int, Proposal { status: ProposalStatus::Active, ..state.proposals()[pid as int] })
            =~= state.proposals());
    }
    Ok(ProposalStatus::Active)
}

/// The error that a vote meets, if any: the voter must be a member, the
/// proposal must exist, be active, and be open at `now`.
pub open spec fn vote_error(state: ContractState, sender: Seq<char>, proposal_id: u64, now: u64) -> Option<
    ContractError,
> {
    if !state.is_member(sender) {
        Some(ContractError::NotDaoMember {})
    } else if proposal_id >= state.proposals().len() {
        Some(ContractError::ProposalNotFound {})
    } else {
        vote_gate_error(now, state.proposals()[proposal_id as int])
    }
}

/// The tally of proposal `proposal_id` once `sender` votes `choice`.
pub open spec fn tally_with_vote(
    state: ContractState,
    sender: Seq<char>,
    proposal_id: u64,
    choice: VoteChoice,
) -> VoteCount {
    let i = proposal_id as int;
    tally_after(state.tallies()[i], prior_choice(state.ballots()[i], sender), choice)
}

/// Casts `sender`'s vote on proposal `proposal_id` at `now`. A later vote
/// of the same voter replaces the earlier one, moving it between counters.
/// The proposal is then evaluated with the new tally.
pub fn execute_vote_on_proposal(
    state: &mut ContractState,
    sender: &String,
    now: u64,
    proposal_id: u64,
    choice: VoteChoice,
) -> (r: Result<VoteReceipt, ContractError>)
    requires
        old(state).wf(),
    ensures
        final(state).wf(),
        match vote_error(*old(state), sender@, proposal_id, now) {
            Some(e) => r == Err::<VoteReceipt, ContractError>(e) && *final(state) == *old(state),
            None => r is Ok,
        },
        r matches Ok(receipt) ==> {
            let i = proposal_id as int;
            let t = tally_with_vote(*old(state), sender@, proposal_id, choice);
            let v = Vote { voter: *sender, choice, timestamp: now };
            &&& final(state).ballots() == old(state).ballots().update(i, ledger_after(old(state).ballots()[i], v))
            &&& final(state).tallies() == old(state).tallies().update(i, t)
            &&& evaluation(
                old(state).proposals()[i],
                t,
                old(state).config(),
                old(state).registry(),
                now,
                receipt.status,
                final(state).registry(),
            )
            &&& final(state).proposals() == old(state).proposals().update(
                i,
                Proposal { status: receipt.status, ..old(state).proposals()[i] },
            )
            &&& final(state).same_setup(*old(state))
            &&& receipt.yes == t.yes && receipt.no == t.no && receipt.abstain == t.abstain
            &&& receipt.total_eligible == t.total_eligible
            &&& receipt.vote_updated == has_voted(old(state).ballots()[i], sender@)
        },
{
    if !state.has_member(sender) {
        return Err(ContractError::NotDaoMember {});
    }
    if proposal_id >= state.proposals.len() as u64 {
        return Err(ContractError::ProposalNotFound {});
    }
    let pid = proposal_id as usize;
    ensure_can_vote_on_proposal(now, &state.proposals[pid])?;
    let ghost s0 = state.ballots()[pid as int];
    let ghost t0 = state.tallies()[pid as int];
    let vote = Vote { voter: sender.clone(), choice, timestamp: now };
    let ghost v = vote;
    let prior = find_vote(&state.ballots[pid], sender);
    let mut tally = state.tallies[pid];
    let prior_choice_value: Option<VoteChoice> = match prior {
        Some(j) => {
            let c = state.ballots[pid][j].choice;
            proof {
                assert(one_vote_each(s0));
                assert(s0[vote_index(s0, sender@)].voter@ == sender@);
                assert(vote_index(s0, sender@) == j as int);
                assert(tally_matches(state.tallies()[pid as int], state.ballots()[pid as int]));
                lemma_count_positive(s0, j as int);
            }
            state.ballots[pid].set(j, vote);
            Some(c)
        },
        None => {
            state.ballots[pid].push(vote);
            None
        },
    };
    let n = state.ballots[pid].len();
    proof {
        assert(prior_choice_value == prior_choice(s0, sender@));
        assert(state.ballots@[pid as int]@ == ledger_after(s0, v));
        lemma_record_vote(s0, t0, v);
        lemma_record_keeps_one_vote_each(s0, v);
        assert(count_choice(ledger_after(s0, v), VoteChoice::Yes) <= u64::MAX);
        assert(count_choice(ledger_after(s0, v), VoteChoice::No) <= u64::MAX);
        assert(count_choice(ledger_after(s0, v), VoteChoice::Abstain) <= u64::MAX);
    }
    match prior_choice_value {
        Some(VoteChoice::Yes) => tally.yes = tally.yes - 1,
        Some(VoteChoice::No) => tally.no = tally.no - 1,
        Some(VoteChoice::Abstain) => tally.abstain = tally.abstain - 1,
        None => {},
    }
    match choice {
        VoteChoice::Yes => tally.yes = tally.yes + 1,
        VoteChoice::No => tally.no = tally.no + 1,
        VoteChoice::Abstain => tally.abstain = tally.abstain + 1,
    }
    assert(tally == tally_after(t0, prior_choice(s0, sender@), choice));
    state.tallies.set(pid, tally);
    proof {
        assert(state.ballots() =~= old(state).ballots().update(pid as int, ledger_after(s0, v)));
        assert forall|k: int| 0 <= k < state.proposals().len() implies tally_matches(
            #[trigger] state.tallies()[k],
            state.ballots()[k],
        ) && one_vote_each(state.ballots()[k]) by {
            if k != pid as int {
                assert(state.tallies()[k] == old(state).tallies()[k]);
                assert(state.ballots()[k] == old(state).ballots()[k]);
            }
        }
    }
    let status = match check_and_update_proposal_status(state, now, proposal_id) {
        Ok(s) => s,
        Err(e) => return Err(e),
    };
    Ok(
        VoteReceipt {
            status,
            yes: tally.yes,
            no: tally.no,
            abstain: tally.abstain,
            total_eligible: tally.total_eligible,
            vote_updated: prior.is_some(),
        },
    )
}

/// The error that an execution meets before its payload is looked at, if
/// any: the caller must be a member, the proposal must exist, have passed,
/// and its voting window must not have closed.
pub open spec fn execute_error(state: ContractState, sender: Seq<char>, proposal_id: u64, now: u64) -> Option<
    ContractError,
> {
    if !state.is_member(sender) {
        Some(ContractError::NotDaoMember {})
    } else if proposal_id >= state.proposals().len() {
        Some(ContractError::ProposalNotFound {})
    } else {
        execute_gate_error(now, state.proposals()[proposal_id as int])
    }
}

/// The payload cannot be carried out on `state`: the member to add is
/// already one, the member to remove is not one or is the last, the new
/// configuration is invalid or asks for more members than there are, or the
/// work cannot be published.
pub open spec fn dispatch_refused(state: ContractState, p: Proposal) -> bool {
    match p.execution_data {
        None => false,
        Some(ExecutionData::MemberChange { member_address, action }) => match action {
            MemberAction::Add => state.is_member(member_address@),
            MemberAction::Remove => !state.is_member(member_address@) || state.member_count() <= 1,
        },
        Some(ExecutionData::ConfigUpdate { new_config }) => !config_valid(new_config)
            || state.member_count() < new_config.min_members,
        Some(ExecutionData::ArticlePublication { .. }) => !payload_publishable(state.registry(), p),
    }
}

/// What carrying out the payload of `p` does, from `old` to `new`, and what
/// it reports.
pub open spec fn dispatched(
    old: ContractState,
    new: ContractState,
    p: Proposal,
    now: u64,
    outcome: ExecutionOutcome,
) -> bool {
    match p.execution_data {
        None => {
            &&& new.members() == old.members()
            &&& new.config() == old.config()
            &&& new.tallies() == old.tallies()
            &&& new.registry() == old.registry()
            &&& outcome == ExecutionOutcome::Nothing
        },
        Some(ExecutionData::MemberChange { member_address, action }) => match action {
            MemberAction::Add => {
                &&& forall|x: Seq<char>| #[trigger] new.is_member(x) <==> old.is_member(x) || x == member_address@
                &&& new.member_count() == old.member_count() + 1
                &&& new.config() == old.config()
                &&& new.tallies() == old.tallies()
                &&& new.registry() == old.registry()
                &&& outcome == (ExecutionOutcome::MemberAdded { member: member_address })
            },
            MemberAction::Remove => {
                &&& forall|x: Seq<char>| #[trigger] new.is_member(x) <==> old.is_member(x) && x != member_address@
                &&& new.member_count() == old.member_count() - 1
                &&& new.config() == old.config()
                &&& new.tallies() == old.tallies_after_removal()
                &&& new.registry() == old.registry()
                &&& outcome == (ExecutionOutcome::MemberRemoved { member: member_address })
            },
        },
        Some(ExecutionData::ConfigUpdate { new_config }) => {
            &&& new.members() == old.members()
            &&& new.config() == new_config
            &&& new.tallies() == old.tallies()
            &&& new.registry() == old.registry()
            &&& outcome == (ExecutionOutcome::ConfigUpdated { old_config: old.config(), new_config })
        },
        Some(ExecutionData::ArticlePublication { .. }) => {
            &&& new.members() == old.members()
            &&& new.config() == old.config()
            &&& new.tallies() == old.tallies()
            &&& payload_published(old.registry(), new.registry(), p, now)
            &&& outcome == (ExecutionOutcome::ArticlePublished { token_id: old.registry().items().len() as u64 })
        },
    }
}

/// Executes passed proposal `proposal_id` on behalf of member `sender` at
/// `now`, at most once and never after its deadline, and marks it executed.
/// A publication that fails is the one refusal that changes the store: the
/// proposal is marked rejected and the error is returned. That move from
/// `Passed` to `Rejected` is a documented exception, outside the lifecycle
/// graph of `valid_transition`.
pub fn execute_proposal(
    state: &mut ContractState,
    sender: &String,
    now: u64,
    proposal_id: u64,
) -> (r: Result<ExecutionOutcome, ContractError>)
    requires
        old(state).wf(),
    ensures
        final(state).wf(),
        execute_error(*old(state), sender@, proposal_id, now) matches Some(e) ==> r == Err::<
            ExecutionOutcome,
            ContractError,
        >(e) && *final(state) == *old(state),
        execute_error(*old(state), sender@, proposal_id, now) is None ==> {
            let i = proposal_id as int;
            let p = old(state).proposals()[i];
            &&& r is Err <==> dispatch_refused(*old(state), p)
            &&& final(state).ballots() == old(state).ballots()
            &&& final(state).name() == old(state).name()
            &&& final(state).symbol() == old(state).symbol()
            &&& final(state).owner() == old(state).owner()
            &&& final(state).base_citation_fee() == old(state).base_citation_fee()
            &&& r is Err ==> match p.execution_data {
                Some(ExecutionData::ArticlePublication { .. }) => {
                    &&& final(state).proposals() == old(state).proposals().update(
                        i,
                        Proposal { status: ProposalStatus::Rejected, ..p },
                    )
                    &&& final(state).same_setup(*old(state))
                    &&& final(state).tallies() == old(state).tallies()
                    &&& final(state).registry() == old(state).registry()
                },
                _ => *final(state) == *old(state),
            }
            &&& r matches Ok(outcome) ==> final(state).proposals() == old(state).proposals().update(
                i,
                Proposal { status: ProposalStatus::Executed, ..p },
            ) && dispatched(*old(state), *final(state), p, now, outcome)
        },
        execute_error(*old(state), sender@, proposal_id, now) is None ==> match r {
            Ok(_) => true,
            Err(e) => match old(state).proposals()[proposal_id as int].execution_data {
                Some(ExecutionData::MemberChange { member_address, action }) => e == (if action
                    == MemberAction::Add {
                    ContractError::MemberAlreadyExists {}
                } else if !old(state).is_member(member_address@) {
                    ContractError::MemberDoesNotExist {}
                } else {
                    ContractError::CannotRemoveLastMember {}
                }),
                Some(ExecutionData::ConfigUpdate { new_config }) => (new_config.approval_threshold == 0
                    || new_config.approval_threshold > 100) ==> e == ContractError::InvalidVotingThreshold {},
                _ => true,
            },
        },
{
    if !state.has_member(sender) {
        return Err(ContractError::NotDaoMember {});
    }
    if proposal_id >= state.proposals.len() as u64 {
        return Err(ContractError::ProposalNotFound {});
    }
    let pid = proposal_id as usize;
    ensure_can_execute_proposal(now, &state.proposals[pid])?;
    let proposal = state.proposals[pid].clone();
    let outcome = match &proposal.execution_data {
        None => ExecutionOutcome::Nothing,
        Some(ExecutionData::MemberChange { member_address, action }) => match action {
            MemberAction::Add => {
                if state.has_member(member_address) {
                    return Err(ContractError::MemberAlreadyExists {});
                }
                state.add_member(member_address.clone());
                ExecutionOutcome::MemberAdded { member: member_address.clone() }
            },
            MemberAction::Remove => {
                let idx = match state.member_index(member_address) {
                    Some(idx) => idx,
                    None => return Err(ContractError::MemberDoesNotExist {}),
                };
                if state.count_members() <= 1 {
                    return Err(ContractError::CannotRemoveLastMember {});
                }
                let ghost before = *state;
                state.update_vote_counts_for_removed_member();
                state.remove_member_at(idx);
                proof {
                    let m = state.members();
                    let o = before.members();
                    assert forall|x: Seq<char>| #[trigger] state.is_member(x) <==> before.is_member(x)
                        && x != member_address@ by {
                        if state.is_member(x) {
                            let k = choose|k: int| 0 <= k < m.len() && m[k] == x;
                            let ok = if k < idx { k } else { k + 1 };
                            assert(o[ok] == x);
                            assert(o[idx as int] == member_address@);
                            assert(ok != idx);
                        }
                        if before.is_member(x) && x != member_address@ {
                            let k = choose|k: int| 0 <= k < o.len() && o[k] == x;
                            assert(k != idx);
                            let nk = if k < idx { k } else { k - 1 };
                            assert(m[nk] == x);
                        }
                    }
                }
                ExecutionOutcome::MemberRemoved { member: member_address.clone() }
            },
        },
        Some(ExecutionData::ConfigUpdate { new_config }) => {
            if new_config.approval_threshold == 0 || new_config.approval_threshold > 100 {
                return Err(ContractError::InvalidVotingThreshold {});
            }
            if new_config.min_members == 0 {
                return Err(ContractError::Std("Minimum members must be at least 1".to_string()));
            }
            validate_voting_period(new_config.voting_period)?;
            if state.count_members() < new_config.min_members {
                return Err(
                    ContractError::Std("Current member count is less than required minimum".to_string()),
                );
            }
            let old_config = state.config;
            state.config = *new_config;
            ExecutionOutcome::ConfigUpdated { old_config, new_config: *new_config }
        },
        Some(ExecutionData::ArticlePublication { ipfs_hash, doi, metadata_uri }) => {
            match execute_article_publication_proposal(state, now, &proposal, ipfs_hash, doi, metadata_uri) {
                Ok(token_id) => ExecutionOutcome::ArticlePublished { token_id },
                Err(e) => {
                    state.set_status(pid, ProposalStatus::Rejected);
                    return Err(e);
                },
            }
        },
    };
    let ghost pre = *state;
    state.set_status(pid, ProposalStatus::Executed);
    assert(forall|x: Seq<char>| #[trigger] state.is_member(x) == pre.is_member(x));
    Ok(outcome)
}

/// The amount of the first coin in `denom`, zero if there is none.
pub open spec fn paid_in(funds: Seq<Coin>, denom: Seq<char>) -> u128
    decreases funds.len(),
{
    if funds.len() == 0 {
        0
    } else if funds[0].denom@ == denom {
        funds[0].amount
    } else {
        paid_in(funds.drop_first(), denom)
    }
}

/// The share of a citation fee that goes to the DAO: five percent, rounded
/// down.
pub open spec fn dao_share(payment: u128) -> int {
    (payment * 5) / 100
}

/// The amount of the first coin in `denom`, zero if there is none.
pub fn payment_in(funds: &Vec<Coin>, denom: &str) -> (r: u128)
    ensures
        r == paid_in(funds@, denom@),
{
    let mut i: usize = 0;
    assert(funds@.subrange(0, funds@.len() as int) =~= funds@);
    while i < funds.len()
        invariant
            i <= funds@.len(),
            paid_in(funds@.subrange(i as int, funds@.len() as int), denom@) == paid_in(funds@, denom@),
        decreases funds@.len() - i,
    {
        assert(funds@.subrange(i as int, funds@.len() as int).drop_first() =~= funds@.subrange(
            i + 1,
            funds@.len() as int,
        ));
        if same_text(funds[i].denom.as_str(), denom) {
            return funds[i].amount;
        }
        i = i + 1;
    }
    0
}

/// Cites paper `paper_id`, paying with the `utoken` coin of `funds`, which
/// must cover the citation fee. The citation is recorded, and the payment
/// is split: five percent, rounded down, to the contract's owner and the
/// rest to the paper's owner; the two transfers are returned for the caller
/// to carry out, and none when the payment is zero.
pub fn execute_cite_paper(
    state: &mut ContractState,
    sender: &String,
    now: u64,
    paper_id: u64,
    funds: &Vec<Coin>,
) -> (r: Result<Vec<Payout>, ContractError>)
    requires
        old(state).wf(),
    ensures
        final(state).wf(),
        ({
            let paid = paid_in(funds@, "utoken"@);
            let reg = old(state).registry();
            if paper_id >= reg.items().len() {
                r == Err::<Vec<Payout>, ContractError>(ContractError::TokenNotFound {}) && *final(state) == *old(state)
            } else if paid < old(state).base_citation_fee() {
                r == Err::<Vec<Payout>, ContractError>(ContractError::InsufficientPayment {}) && *final(state) == *old(state)
            } else {
                &&& r is Ok
                &&& final(state).same_governance(*old(state))
                &&& final(state).registry().items() == reg.items()
                &&& final(state).registry().versions() == reg.versions()
                &&& final(state).registry().dois() == reg.dois()
                &&& final(state).registry().citations() == reg.citations().update(
                    paper_id as int,
                    reg.citations()[paper_id as int].push(Citation { citer: *sender, amount: paid, timestamp: now }),
                )
            }
        }),
        r matches Ok(payouts) ==> {
            let paid = paid_in(funds@, "utoken"@);
            if paid == 0 {
                payouts@.len() == 0
            } else {
                &&& payouts@.len() == 2
                &&& payouts@[0].to@ == old(state).registry().items()[paper_id as int].owner@
                &&& payouts@[0].amount == paid - dao_share(paid)
                &&& payouts@[1].to@ == old(state).owner()
                &&& payouts@[1].amount == dao_share(paid)
            }
        },
{
    let item_owner = match state.registry.item(paper_id) {
        Some(item) => item.owner.clone(),
        None => return Err(ContractError::TokenNotFound {}),
    };
    let payment = payment_in(funds, "utoken");
    if payment < state.base_citation_fee {
        return Err(ContractError::InsufficientPayment {});
    }
    state.registry.cite(paper_id, Citation { citer: sender.clone(), amount: payment, timestamp: now });
    let mut payouts: Vec<Payout> = Vec::new();
    if payment > 0 {
        let dao = payment / 20;
        assert(dao == dao_share(payment)) by (nonlinear_arith)
            requires
                dao == payment / 20,
        ;
        payouts.push(Payout { to: item_owner, amount: payment - dao });
        payouts.push(Payout { to: state.owner.clone(), amount: dao });
    }
    Ok(payouts)
}

/// Only the records' fields, histories, approvals and grants differ from
/// `other`; the citation fee may differ too.
pub open spec fn only_records_changed(state: ContractState, other: ContractState) -> bool {
    &&& state.name() == other.name()
    &&& state.symbol() == other.symbol()
    &&& state.owner() == other.owner()
    &&& state.members() == other.members()
    &&& state.config() == other.config()
    &&& state.proposals() == other.proposals()
    &&& state.tallies() == other.tallies()
    &&& state.ballots() == other.ballots()
}

/// The error of an action that needs owner, approved or operator rights on
/// record `token_id`, if any.
pub open spec fn rights_error(state: ContractState, spender: Seq<char>, token_id: u64) -> Option<ContractError> {
    if token_id >= state.registry().items().len() {
        Some(ContractError::TokenNotFound {})
    } else if !state.registry().approved_or_owner(token_id as int, spender) {
        Some(ContractError::NotAuthorized {})
    } else {
        None
    }
}

/// Whether `spender` owns record `token_id`, is approved for it, or
/// operates for its owner; `TokenNotFound` for an unknown record.
pub fn is_approved_or_owner(state: &ContractState, spender: &String, token_id: u64) -> (r: Result<bool, ContractError>)
    requires
        state.wf(),
    ensures
        r == (if token_id < state.registry().items().len() {
            Ok::<bool, ContractError>(state.registry().approved_or_owner(token_id as int, spender@))
        } else {
            Err(ContractError::TokenNotFound {})
        }),
{
    if token_id >= state.registry.len() {
        return Err(ContractError::TokenNotFound {});
    }
    Ok(state.registry.check_approved_or_owner(token_id, spender))
}

/// Hands record `token_id` to `recipient` and clears its approval; the
/// sender needs owner, approved or operator rights.
pub fn execute_transfer_nft(state: &mut ContractState, sender: &String, recipient: String, token_id: u64) -> (r: Result<
    (),
    ContractError,
>)
    requires
        old(state).wf(),
    ensures
        final(state).wf(),
        match rights_error(*old(state), sender@, token_id) {
            Some(e) => r == Err::<(), ContractError>(e) && *final(state) == *old(state),
            None => {
                let reg = old(state).registry();
                &&& r is Ok
                &&& final(state).same_governance(*old(state))
                &&& final(state).registry().items() == reg.items().update(
                    token_id as int,
                    DataItem { owner: recipient, ..reg.items()[token_id as int] },
                )
                &&& final(state).registry().approvals() == reg.approvals().update(token_id as int, None)
                &&& final(state).registry().versions() == reg.versions()
                &&& final(state).registry().operators() == reg.operators()
                &&& final(state).registry().levels() == reg.levels()
                &&& final(state).registry().authorized() == reg.authorized()
                &&& final(state).registry().dois() == reg.dois()
                &&& final(state).registry().citations() == reg.citations()
            },
        },
{
    if !is_approved_or_owner(state, sender, token_id)? {
        return Err(ContractError::NotAuthorized {});
    }
    state.registry.transfer(token_id, recipient);
    Ok(())
}

/// Approves `spender` for record `token_id`; only the owner may.
pub fn execute_approve(state: &mut ContractState, sender: &String, spender: String, token_id: u64) -> (r: Result<
    (),
    ContractError,
>)
    requires
        old(state).wf(),
    ensures
        final(state).wf(),
        token_id >= old(state).registry().items().len() ==> r == Err::<(), ContractError>(
            ContractError::TokenNotFound {},
        ) && *final(state) == *old(state),
        token_id < old(state).registry().items().len() ==> if old(state).registry().items()[token_id as int].owner@
            != sender@ {
            r == Err::<(), ContractError>(ContractError::NotAuthorized {}) && *final(state) == *old(state)
        } else {
            let reg = old(state).registry();
            &&& r is Ok
            &&& final(state).same_governance(*old(state))
            &&& final(state).registry().approvals() == reg.approvals().update(token_id as int, Some(spender))
            &&& final(state).registry().items() == reg.items()
            &&& final(state).registry().versions() == reg.versions()
            &&& final(state).registry().operators() == reg.operators()
            &&& final(state).registry().levels() == reg.levels()
            &&& final(state).registry().authorized() == reg.authorized()
            &&& final(state).registry().dois() == reg.dois()
            &&& final(state).registry().citations() == reg.citations()
        },
{
    let owner = match state.registry.item(token_id) {
        Some(item) => item.owner.clone(),
        None => return Err(ContractError::TokenNotFound {}),
    };
    if owner != *sender {
        return Err(ContractError::NotAuthorized {});
    }
    state.registry.approve(token_id, spender);
    Ok(())
}

/// Lets `operator` act on every record of `sender`.
pub fn execute_approve_all(state: &mut ContractState, sender: &String, operator: String)
    requires
        old(state).wf(),
    ensures
        final(state).wf(),
        final(state).same_governance(*old(state)),
        forall|o: Seq<char>, p: Seq<char>|
            #[trigger] final(state).registry().is_operator(o, p) <==> old(state).registry().is_operator(o, p) || (o
                == sender@ && p == operator@),
        final(state).registry().items() == old(state).registry().items(),
        final(state).registry().approvals() == old(state).registry().approvals(),
        final(state).registry().levels() == old(state).registry().levels(),
{
    state.registry.add_operator(sender.clone(), operator);
    proof {
        assert forall|o: Seq<char>, p: Seq<char>|
            #[trigger] state.registry().is_operator(o, p) <==> old(state).registry().is_operator(o, p) || (o
                == sender@ && p == operator@) by {
            assert(state.registry.is_operator(o, p) == state.registry().is_operator(o, p));
        }
    }
}

/// Withdraws `operator`'s right to act on the records of `sender`.
pub fn execute_revoke_all(state: &mut ContractState, sender: &String, operator: &String)
    requires
        old(state).wf(),
    ensures
        final(state).wf(),
        final(state).same_governance(*old(state)),
        forall|o: Seq<char>, p: Seq<char>|
            #[trigger] final(state).registry().is_operator(o, p) <==> old(state).registry().is_operator(o, p) && !(o
                == sender@ && p == operator@),
        final(state).registry().items() == old(state).registry().items(),
        final(state).registry().approvals() == old(state).registry().approvals(),
        final(state).registry().levels() == old(state).registry().levels(),
{
    state.registry.remove_operator(sender, operator);
    proof {
        assert forall|o: Seq<char>, p: Seq<char>|
            #[trigger] state.registry().is_operator(o, p) <==> old(state).registry().is_operator(o, p) && !(o
                == sender@ && p == operator@) by {
            assert(state.registry.is_operator(o, p) == state.registry().is_operator(o, p));
        }
    }
}

/// Replaces the content and metadata of record `token_id` and adds the new
/// content to its history; the sender needs rights on it, and a frozen
/// record is refused.
pub fn execute_update_data_item(
    state: &mut ContractState,
    sender: &String,
    now: u64,
    token_id: u64,
    new_ipfs_hash: String,
    new_metadata_uri: String,
) -> (r: Result<(), ContractError>)
    requires
        old(state).wf(),
    ensures
        final(state).wf(),
        match rights_error(*old(state), sender@, token_id) {
            Some(e) => r == Err::<(), ContractError>(e) && *final(state) == *old(state),
            None => if old(state).registry().items()[token_id as int].is_frozen {
                r == Err::<(), ContractError>(ContractError::DataFrozen {}) && *final(state) == *old(state)
            } else {
                let reg = old(state).registry();
                &&& r is Ok
                &&& final(state).same_governance(*old(state))
                &&& final(state).registry().items() == reg.items().update(
                    token_id as int,
                    DataItem {
                        ipfs_hash: new_ipfs_hash,
                        metadata_uri: new_metadata_uri,
                        last_updated: now,
                        ..reg.items()[token_id as int]
                    },
                )
                &&& final(state).registry().versions() == reg.versions().update(
                    token_id as int,
                    reg.versions()[token_id as int].push(DataVersion { ipfs_hash: new_ipfs_hash, timestamp: now }),
                )
                &&& final(state).registry().same_rights(reg)
            },
        },
{
    if !is_approved_or_owner(state, sender, token_id)? {
        return Err(ContractError::NotAuthorized {});
    }
    let frozen = match state.registry.item(token_id) {
        Some(item) => item.is_frozen,
        None => return Err(ContractError::TokenNotFound {}),
    };
    if frozen {
        return Err(ContractError::DataFrozen {});
    }
    state.registry.update_content(token_id, new_ipfs_hash, new_metadata_uri, now);
    Ok(())
}

/// Freezes or thaws record `token_id`; the sender needs rights on it.
pub fn execute_freeze_data(state: &mut ContractState, sender: &String, token_id: u64, freeze: bool) -> (r: Result<
    (),
    ContractError,
>)
    requires
        old(state).wf(),
    ensures
        final(state).wf(),
        match rights_error(*old(state), sender@, token_id) {
            Some(e) => r == Err::<(), ContractError>(e) && *final(state) == *old(state),
            None => {
                let reg = old(state).registry();
                &&& r is Ok
                &&& final(state).same_governance(*old(state))
                &&& final(state).registry().items() == reg.items().update(
                    token_id as int,
                    DataItem { is_frozen: freeze, ..reg.items()[token_id as int] },
                )
                &&& final(state).registry().versions() == reg.versions()
                &&& final(state).registry().same_rights(reg)
            },
        },
{
    if !is_approved_or_owner(state, sender, token_id)? {
        return Err(ContractError::NotAuthorized {});
    }
    state.registry.set_frozen(token_id, freeze);
    Ok(())
}

/// Gives `grantee` access `level` to record `token_id`; the sender needs
/// rights on it. The grantee is listed as authorized exactly when the level
/// is not `NoAccess`.
pub fn execute_grant_access(
    state: &mut ContractState,
    sender: &String,
    token_id: u64,
    grantee: String,
    level: AccessLevel,
) -> (r: Result<(), ContractError>)
    requires
        old(state).wf(),
    ensures
        final(state).wf(),
        match rights_error(*old(state), sender@, token_id) {
            Some(e) => r == Err::<(), ContractError>(e) && *final(state) == *old(state),
            None => {
                let reg = old(state).registry();
                let id = token_id as int;
                &&& r is Ok
                &&& final(state).same_governance(*old(state))
                &&& final(state).registry().items() == reg.items()
                &&& final(state).registry().approvals() == reg.approvals()
                &&& final(state).registry().operators() == reg.operators()
                &&& forall|u: Seq<char>|
                    #[trigger] final(state).registry().access_level(id, u) == if u == grantee@ {
                        level
                    } else {
                        reg.access_level(id, u)
                    }
                &&& forall|u: Seq<char>|
                    #[trigger] final(state).registry().authorized()[id].contains(u) == if u == grantee@ {
                        level != AccessLevel::NoAccess
                    } else {
                        reg.authorized()[id].contains(u)
                    }
            },
        },
{
    if !is_approved_or_owner(state, sender, token_id)? {
        return Err(ContractError::NotAuthorized {});
    }
    state.registry.grant(token_id, grantee, level);
    Ok(())
}

/// Asks for access to record `token_id`. A public record is open to all.
/// For a private one the sender needs owner, approved or operator rights or
/// a granted level; a payment that comes with the request must then cover
/// the price, and a positive one is passed on to the owner and counted as
/// the record's earnings.
pub fn execute_request_access(state: &mut ContractState, sender: &String, token_id: u64, funds: &Vec<Coin>) -> (r: Result<
    Vec<Payout>,
    ContractError,
>)
    requires
        old(state).wf(),
        token_id < old(state).registry().items().len() ==> old(state).registry().items()[token_id as int].total_earned
            + paid_in(funds@, "utoken"@) <= u128::MAX,
    ensures
        final(state).wf(),
        token_id >= old(state).registry().items().len() ==> r == Err::<Vec<Payout>, ContractError>(
            ContractError::TokenNotFound {},
        ),
        r is Err ==> *final(state) == *old(state),
        token_id < old(state).registry().items().len() ==> {
            let reg = old(state).registry();
            let item = reg.items()[token_id as int];
            let id = token_id as int;
            let allowed = item.is_public || reg.approved_or_owner(id, sender@) || reg.access_level(id, sender@)
                != AccessLevel::NoAccess;
            let paid = paid_in(funds@, "utoken"@);
            let charged = !item.is_public && funds@.len() > 0;
            if !allowed {
                r == Err::<Vec<Payout>, ContractError>(ContractError::NotAuthorized {})
            } else if charged && paid < item.price {
                r == Err::<Vec<Payout>, ContractError>(ContractError::InsufficientPayment {})
            } else {
                &&& r is Ok
                &&& final(state).same_governance(*old(state))
                &&& if charged && paid > 0 {
                    &&& r->Ok_0@.len() == 1
                    &&& r->Ok_0@[0].to@ == item.owner@
                    &&& r->Ok_0@[0].amount == paid
                    &&& final(state).registry().items() == reg.items().update(
                        id,
                        DataItem { total_earned: (item.total_earned + paid) as u128, ..item },
                    )
                } else {
                    &&& r->Ok_0@.len() == 0
                    &&& final(state).registry().items() == reg.items()
                }
                &&& final(state).registry().versions() == reg.versions()
                &&& final(state).registry().same_rights(reg)
            }
        },
{
    let (owner, is_public, price) = match state.registry.item(token_id) {
        Some(item) => (item.owner.clone(), item.is_public, item.price),
        None => return Err(ContractError::TokenNotFound {}),
    };
    let mut payouts: Vec<Payout> = Vec::new();
    if !is_public {
        let rights = state.registry.check_approved_or_owner(token_id, sender);
        let level = state.registry.level_of(token_id, sender);
        if !rights && level == AccessLevel::NoAccess {
            return Err(ContractError::NotAuthorized {});
        }
        if funds.len() > 0 {
            let payment = payment_in(funds, "utoken");
            if payment < price {
                return Err(ContractError::InsufficientPayment {});
            }
            if payment > 0 {
                payouts.push(Payout { to: owner, amount: payment });
                state.registry.add_earnings(token_id, payment);
            }
        }
    }
    Ok(payouts)
}

/// The DOI of a correction: the corrected paper's DOI, `-v`, and the
/// version number in decimal.
pub open spec fn correction_doi_of(doi: Seq<char>, version: nat) -> Seq<char> {
    doi + "-v"@ + decimal(version)
}

/// Builds the DOI of a correction.
fn correction_doi(doi: &String, version: u64) -> (r: String)
    ensures
        r@ == correction_doi_of(doi@, version as nat),
{
    let number = decimal_string(version);
    doi.clone().concat("-v").concat(number.as_str())
}

/// Publishes a correction of paper `original_paper_id` as a new paper owned
/// by the sender, who needs rights on the corrected paper: the new content,
/// the corrected paper's metadata, and its DOI with `-v` and the next
/// version number. Returns the new record's number and its DOI.
pub fn execute_submit_correction(
    state: &mut ContractState,
    sender: &String,
    now: u64,
    original_paper_id: u64,
    new_ipfs_hash: String,
) -> (r: Result<(u64, String), ContractError>)
    requires
        old(state).wf(),
        original_paper_id < old(state).registry().items().len() ==> old(state).registry().versions()[original_paper_id as int].len() < u64::MAX,
    ensures
        final(state).wf(),
        match rights_error(*old(state), sender@, original_paper_id) {
            Some(e) => r == Err::<(u64, String), ContractError>(e) && *final(state) == *old(state),
            None => {
                let reg = old(state).registry();
                let id = original_paper_id as int;
                match reg.dois()[id] {
                    None => r == Err::<(u64, String), ContractError>(ContractError::TokenNotFound {})
                        && *final(state) == *old(state),
                    Some(doi) => {
                        &&& r is Ok
                        &&& r->Ok_0.0 == reg.items().len()
                        &&& r->Ok_0.1@ == correction_doi_of(doi@, (reg.versions()[id].len() + 1) as nat)
                        &&& final(state).same_governance(*old(state))
                        &&& published(
                            reg,
                            final(state).registry(),
                            sender@,
                            new_ipfs_hash@,
                            r->Ok_0.1@,
                            reg.items()[id].metadata_uri@,
                            now,
                        )
                    },
                }
            },
        },
{
    if !is_approved_or_owner(state, sender, original_paper_id)? {
        return Err(ContractError::NotAuthorized {});
    }
    let original_doi = match state.registry.doi(original_paper_id) {
        Some(d) => d.clone(),
        None => return Err(ContractError::TokenNotFound {}),
    };
    let metadata_uri = match state.registry.item(original_paper_id) {
        Some(item) => item.metadata_uri.clone(),
        None => return Err(ContractError::TokenNotFound {}),
    };
    let versions = match state.registry.history(original_paper_id) {
        Some(h) => h.len() as u64,
        None => return Err(ContractError::TokenNotFound {}),
    };
    let doi = correction_doi(&original_doi, versions + 1);
    let id = state.registry.create(sender.clone(), new_ipfs_hash, 0, true, metadata_uri, Some(doi.clone()), now);
    Ok((id, doi))
}

/// Sets the citation fee; only the contract's owner may.
pub fn execute_set_base_citation_fee(state: &mut ContractState, sender: &String, fee: u128) -> (r: Result<
    (),
    ContractError,
>)
    requires
        old(state).wf(),
    ensures
        final(state).wf(),
        sender@ != old(state).owner() ==> r == Err::<(), ContractError>(ContractError::NotAuthorized {})
            && *final(state) == *old(state),
        sender@ == old(state).owner() ==> r is Ok && final(state).base_citation_fee() == fee
            && only_records_changed(*final(state), *old(state)) && final(state).registry() == old(
            state,
        ).registry(),
{
    if state.owner != *sender {
        return Err(ContractError::NotAuthorized {});
    }
    state.base_citation_fee = fee;
    Ok(())
}

/// Creates a public, free paper record owned by `sender` and returns its
/// number.
pub fn execute_create_paper_item(
    state: &mut ContractState,
    sender: &String,
    now: u64,
    ipfs_hash: String,
    doi: String,
    metadata_uri: String,
) -> (r: u64)
    requires
        old(state).wf(),
    ensures
        final(state).wf(),
        final(state).same_governance(*old(state)),
        r == old(state).registry().items().len(),
        published(old(state).registry(), final(state).registry(), sender@, ipfs_hash@, doi@, metadata_uri@, now),
{
    state.registry.create(sender.clone(), ipfs_hash, 0, true, metadata_uri, Some(doi), now)
}

/// Creates a data record owned by `sender` and returns its number.
pub fn execute_create_data_item(
    state: &mut ContractState,
    sender: &String,
    now: u64,
    ipfs_hash: String,
    price: u128,
    is_public: bool,
    metadata_uri: String,
) -> (r: u64)
    requires
        old(state).wf(),
    ensures
        final(state).wf(),
        final(state).same_governance(*old(state)),
        r == old(state).registry().items().len(),
        old(state).registry().appended(final(state).registry(), final(state).registry().items().last(), None, now),
        new_item(sender@, ipfs_hash@, price, is_public, metadata_uri@, now, final(state).registry().items().last()),
{
    state.registry.create(sender.clone(), ipfs_hash, price, is_public, metadata_uri, None, now)
}

/// Publishes the work of a passed publication proposal as a paper owned by
/// its proposer: the fields and their formats are checked again, and a DOI
/// that some paper already carries is refused.
pub fn execute_article_publication_proposal(
    state: &mut ContractState,
    now: u64,
    proposal: &Proposal,
    ipfs_hash: &String,
    doi: &String,
    metadata_uri: &String,
) -> (r: Result<u64, ContractError>)
    requires
        old(state).wf(),
    ensures
        final(state).wf(),
        r is Ok <==> publishable(old(state).registry(), ipfs_hash@, doi@, metadata_uri@),
        r is Err ==> *final(state) == *old(state),
        r matches Ok(id) ==> id == old(state).registry().items().len() && final(state).same_governance(
            *old(state),
        ) && published(
            old(state).registry(),
            final(state).registry(),
            proposal.proposer@,
            ipfs_hash@,
            doi@,
            metadata_uri@,
            now,
        ),
{
    if is_blank(ipfs_hash.as_str()) {
        return Err(ContractError::Std("IPFS hash cannot be empty during execution".to_string()));
    }
    if is_blank(doi.as_str()) {
        return Err(ContractError::Std("DOI cannot be empty during execution".to_string()));
    }
    if is_blank(metadata_uri.as_str()) {
        return Err(ContractError::Std("Metadata URI cannot be empty during execution".to_string()));
    }
    if !starts_with(ipfs_hash.as_str(), "Qm") && !starts_with(ipfs_hash.as_str(), "bafy") {
        return Err(ContractError::Std("Invalid IPFS hash format".to_string()));
    }
    if !contains_char(doi.as_str(), '/') {
        return Err(ContractError::Std("Invalid DOI format".to_string()));
    }
    if state.registry.has_doi(doi) {
        return Err(ContractError::Std("DOI already exists".to_string()));
    }
    Ok(
        execute_create_paper_item(
            state,
            &proposal.proposer,
            now,
            ipfs_hash.clone(),
            doi.clone(),
            metadata_uri.clone(),
        ),
    )
}

/// Publishes the payload of proposal `pid`, which must be a publication.
fn try_auto_execute_article_proposal(state: &mut ContractState, now: u64, pid: usize) -> (r: Result<
    u64,
    ContractError,
>)
    requires
        old(state).wf(),
        pid < old(state).proposals().len(),
    ensures
        final(state).wf(),
        r is Ok <==> payload_publishable(old(state).registry(), old(state).proposals()[pid as int]),
        r is Err ==> *final(state) == *old(state),
        r is Ok ==> final(state).same_governance(*old(state)) && payload_published(
            old(state).registry(),
            final(state).registry(),
            old(state).proposals()[pid as int],
            now,
        ),
{
    let proposal = state.proposals[pid].clone();
    match &proposal.execution_data {
        Some(ExecutionData::ArticlePublication { ipfs_hash, doi, metadata_uri }) => {
            execute_article_publication_proposal(state, now, &proposal, ipfs_hash, doi, metadata_uri)
        },
        _ => Err(
            ContractError::Std(
                "Invalid execution data for article publication proposal".to_string(),
            ),
        ),
    }
}

/// The publication payload is complete and well formed: no field is blank,
/// the content hash starts with `Qm` or `bafy`, and the DOI holds a `/`.
pub open spec fn article_payload_ok(
    ipfs_hash: Seq<char>,
    doi: Seq<char>,
    metadata_uri: Seq<char>,
    title: Seq<char>,
) -> bool {
    &&& !blank(ipfs_hash)
    &&& !blank(doi)
    &&& !blank(metadata_uri)
    &&& !blank(title)
    &&& has_prefix(ipfs_hash, "Qm"@) || has_prefix(ipfs_hash, "bafy"@)
    &&& has_char(doi, '/')
}

/// Proposes publishing a work. Anyone may propose; the payload is checked
/// first and a malformed one is refused with a `Std` error.
pub fn execute_submit_article_proposal(
    state: &mut ContractState,
    sender: &String,
    now: u64,
    ipfs_hash: String,
    doi: String,
    metadata_uri: String,
    title: String,
    description: String,
) -> (r: Result<u64, ContractError>)
    requires
        old(state).wf(),
        now <= u64::MAX - MAX_VOTING_PERIOD,
    ensures
        final(state).wf(),
        r is Ok <==> article_payload_ok(ipfs_hash@, doi@, metadata_uri@, title@),
        r matches Err(e) ==> e is Std && *final(state) == *old(state),
        r matches Ok(id) ==> id == old(state).proposals().len() && old(state).with_new_proposal(
            *final(state),
            sender@,
            ProposalType::ArticlePublication,
            title@,
            ExecutionData::ArticlePublication { ipfs_hash, doi, metadata_uri },
            now,
        ) && final(state).proposals().last().description == description,
{
    if is_blank(ipfs_hash.as_str()) {
        return Err(ContractError::Std("IPFS hash cannot be empty".to_string()));
    }
    if is_blank(doi.as_str()) {
        return Err(ContractError::Std("DOI cannot be empty".to_string()));
    }
    if is_blank(metadata_uri.as_str()) {
        return Err(ContractError::Std("Metadata URI cannot be empty".to_string()));
    }
    if is_blank(title.as_str()) {
        return Err(ContractError::Std("Title cannot be empty".to_string()));
    }
    if !starts_with(ipfs_hash.as_str(), "Qm") && !starts_with(ipfs_hash.as_str(), "bafy") {
        return Err(ContractError::Std("Invalid IPFS hash format".to_string()));
    }
    if !contains_char(doi.as_str(), '/') {
        return Err(ContractError::Std("Invalid DOI format".to_string()));
    }
    let data = ExecutionData::ArticlePublication { ipfs_hash, doi, metadata_uri };
    Ok(state.open_proposal(sender, ProposalType::ArticlePublication, title, description, data, now))
}

/// The error that a member proposal meets, if any: the proposer must be a
/// member, a member to add must be new, a member to remove must exist and
/// must not be the last one.
pub open spec fn member_proposal_error(
    state: ContractState,
    sender: Seq<char>,
    target: Seq<char>,
    action: MemberAction,
) -> Option<ContractError> {
    if !state.is_member(sender) {
        Some(ContractError::NotDaoMember {})
    } else {
        match action {
            MemberAction::Add => if state.is_member(target) {
                Some(ContractError::MemberAlreadyExists {})
            } else {
                None
            },
            MemberAction::Remove => if !state.is_member(target) {
                Some(ContractError::MemberDoesNotExist {})
            } else if state.member_count() <= 1 {
                Some(ContractError::CannotRemoveLastMember {})
            } else {
                None
            },
        }
    }
}

/// Proposes admitting or removing `member_address`.
pub fn execute_submit_member_proposal(
    state: &mut ContractState,
    sender: &String,
    now: u64,
    member_address: String,
    action: MemberAction,
    title: String,
    description: String,
) -> (r: Result<u64, ContractError>)
    requires
        old(state).wf(),
        now <= u64::MAX - MAX_VOTING_PERIOD,
    ensures
        final(state).wf(),
        match member_proposal_error(*old(state), sender@, member_address@, action) {
            Some(e) => r == Err::<u64, ContractError>(e) && *final(state) == *old(state),
            None => r == Ok::<u64, ContractError>(old(state).proposals().len() as u64)
                && old(state).with_new_proposal(
                *final(state),
                sender@,
                match action {
                    MemberAction::Add => ProposalType::AddMember,
                    MemberAction::Remove => ProposalType::RemoveMember,
                },
                title@,
                ExecutionData::MemberChange { member_address, action },
                now,
            ) && final(state).proposals().last().description == description,
        },
{
    if !state.has_member(sender) {
        return Err(ContractError::NotDaoMember {});
    }
    match action {
        MemberAction::Add => {
            if state.has_member(&member_address) {
                return Err(ContractError::MemberAlreadyExists {});
            }
        },
        MemberAction::Remove => {
            if !state.has_member(&member_address) {
                return Err(ContractError::MemberDoesNotExist {});
            }
            if state.count_members() <= 1 {
                return Err(ContractError::CannotRemoveLastMember {});
            }
        },
    }
    let kind = match action {
        MemberAction::Add => ProposalType::AddMember,
        MemberAction::Remove => ProposalType::RemoveMember,
    };
    let data = ExecutionData::MemberChange { member_address, action };
    Ok(state.open_proposal(sender, kind, title, description, data, now))
}

/// The configuration that an update proposes: each supplied value replaces
/// the current one.
pub open spec fn merged_config(
    current: DaoConfig,
    voting_period: Option<u64>,
    approval_threshold: Option<u64>,
    min_members: Option<u64>,
) -> DaoConfig {
    DaoConfig {
        voting_period: match voting_period {
            Some(v) => v,
            None => current.voting_period,
        },
        approval_threshold: match approval_threshold {
            Some(v) => v,
            None => current.approval_threshold,
        },
        min_members: match min_members {
            Some(v) => v,
            None => current.min_members,
        },
    }
}

/// A configuration update is refused: the proposer is not a member, a
/// supplied value is out of range, or the current membership is below the
/// proposed minimum.
pub open spec fn config_update_refused(
    state: ContractState,
    sender: Seq<char>,
    voting_period: Option<u64>,
    approval_threshold: Option<u64>,
    min_members: Option<u64>,
) -> bool {
    let c = merged_config(state.config(), voting_period, approval_threshold, min_members);
    !state.is_member(sender) || !config_valid(c) || state.member_count() < c.min_members
}

/// The description of a configuration update proposal: each parameter's
/// current and proposed value, in decimal.
pub open spec fn config_change_description(current: DaoConfig, proposed: DaoConfig) -> Seq<char> {
    "Update DAO configuration - Voting Period: "@ + decimal(current.voting_period as nat) + " -> "@
        + decimal(proposed.voting_period as nat) + ", Approval Threshold: "@ + decimal(
        current.approval_threshold as nat,
    ) + "% -> "@ + decimal(proposed.approval_threshold as nat) + "%, Min Members: "@ + decimal(
        current.min_members as nat,
    ) + " -> "@ + decimal(proposed.min_members as nat)
}

/// Builds the description of a configuration update proposal.
fn describe_config_change(current: DaoConfig, proposed: DaoConfig) -> (r: String)
    ensures
        r@ == config_change_description(current, proposed),
{
    String::from_str("Update DAO configuration - Voting Period: ")
        .concat(decimal_string(current.voting_period).as_str())
        .concat(" -> ")
        .concat(decimal_string(proposed.voting_period).as_str())
        .concat(", Approval Threshold: ")
        .concat(decimal_string(current.approval_threshold).as_str())
        .concat("% -> ")
        .concat(decimal_string(proposed.approval_threshold).as_str())
        .concat("%, Min Members: ")
        .concat(decimal_string(current.min_members).as_str())
        .concat(" -> ")
        .concat(decimal_string(proposed.min_members).as_str())
}

/// Proposes a new configuration. Values are checked here, at submission,
/// so an out-of-range threshold never reaches the evaluator.
pub fn execute_update_dao_config(
    state: &mut ContractState,
    sender: &String,
    now: u64,
    voting_period: Option<u64>,
    approval_threshold: Option<u64>,
    min_members: Option<u64>,
) -> (r: Result<u64, ContractError>)
    requires
        old(state).wf(),
        now <= u64::MAX - MAX_VOTING_PERIOD,
    ensures
        final(state).wf(),
        r is Err <==> config_update_refused(*old(state), sender@, voting_period, approval_threshold, min_members),
        r is Err ==> *final(state) == *old(state),
        !old(state).is_member(sender@) ==> r == Err::<u64, ContractError>(ContractError::NotDaoMember {}),
        approval_threshold matches Some(t) && (t == 0 || t > 100) && old(state).is_member(sender@)
            ==> r == Err::<u64, ContractError>(ContractError::InvalidVotingThreshold {}),
        r matches Ok(id) ==> id == old(state).proposals().len() && old(state).with_new_proposal(
            *final(state),
            sender@,
            ProposalType::UpdateConfig,
            "DAO Configuration Update"@,
            ExecutionData::ConfigUpdate {
                new_config: merged_config(old(state).config(), voting_period, approval_threshold, min_members),
            },
            now,
        ) && final(state).proposals().last().description@ == config_change_description(
            old(state).config(),
            merged_config(old(state).config(), voting_period, approval_threshold, min_members),
        ),
{
    if !state.has_member(sender) {
        return Err(ContractError::NotDaoMember {});
    }
    validate_dao_config(voting_period, approval_threshold, min_members)?;
    let current = state.config;
    let new_config = DaoConfig {
        voting_period: match voting_period {
            Some(v) => v,
            None => current.voting_period,
        },
        approval_threshold: match approval_threshold {
            Some(v) => v,
            None => current.approval_threshold,
        },
        min_members: match min_members {
            Some(v) => v,
            None => current.min_members,
        },
    };
    validate_voting_period(new_config.voting_period)?;
    if state.count_members() < new_config.min_members {
        return Err(ContractError::Std("Current member count is less than required minimum".to_string()));
    }
    let description = describe_config_change(current, new_config);
    let data = ExecutionData::ConfigUpdate { new_config };
    Ok(
        state.open_proposal(
            sender,
            ProposalType::UpdateConfig,
            "DAO Configuration Update".to_string(),
            description,
            data,
            now,
        ),
    )
}

} // verus!
