//! Read-only questions to the store.
use vstd::prelude::*;

use crate::contract::ContractState;
use crate::error::ContractError;
use crate::helpers::expired_at;
use crate::ledger::{count_choice, has_voted, tally_matches, vote_index};
use crate::msg::{
    AccessLevel, Citation, TokenInfoResponse, ContractInfoResponse, DaoConfigResponse, DaoMembersResponse, DataVersion, NumTokensResponse,
    Proposal, ProposalResponse, ProposalStatus, ProposalsResponse, VoteChoice, VoteCount,
    VoteCountResponse, VoteResponse, VotingPowerResponse,
};
use crate::registry::DataItem;
use crate::text::ascending;
use crate::tally::{
    cannot_reach_threshold, meets_threshold, reaches_threshold, required_yes, required_yes_votes,
    threshold_out_of_reach,
};

verus! {

/// Page size when the caller names none.
pub const DEFAULT_LIMIT: u32 = 30;

/// Largest page size.
pub const MAX_LIMIT: u32 = 100;

/// The proposal passes the optional status filter.
pub open spec fn passes_filter(p: Proposal, filter: Option<ProposalStatus>) -> bool {
    match filter {
        Some(s) => p.status == s,
        None => true,
    }
}

/// The first `limit` proposals of `s`, in order, that pass the filter.
pub open spec fn page(s: Seq<Proposal>, filter: Option<ProposalStatus>, limit: nat) -> Seq<Proposal>
    decreases s.len(),
{
    if s.len() == 0 || limit == 0 {
        Seq::empty()
    } else if passes_filter(s[0], filter) {
        seq![s[0]] + page(s.drop_first(), filter, (limit - 1) as nat)
    } else {
        page(s.drop_first(), filter, limit)
    }
}

/// How many proposals of `s` pass the filter.
pub open spec fn count_passing(s: Seq<Proposal>, filter: Option<ProposalStatus>) -> nat
    decreases s.len(),
{
    if s.len() == 0 {
        0
    } else {
        count_passing(s.drop_first(), filter) + if passes_filter(s[0], filter) {
            1nat
        } else {
            0nat
        }
    }
}

/// The page size actually used: the requested one, thirty by default, at
/// most a hundred.
pub open spec fn effective_limit(limit: Option<u32>) -> nat {
    let l = match limit {
        Some(l) => l,
        None => DEFAULT_LIMIT,
    };
    if l > MAX_LIMIT {
        MAX_LIMIT as nat
    } else {
        l as nat
    }
}

/// Where a page starts: just after the given id, or at the first proposal.
pub open spec fn page_start(len: nat, start_after: Option<u64>) -> nat {
    match start_after {
        Some(a) => if a + 1 > len {
            len
        } else {
            (a + 1) as nat
        },
        None => 0,
    }
}

/// Whether `address` is a member.
pub fn is_dao_member(state: &ContractState, address: &String) -> (r: bool)
    ensures
        r == state.is_member(address@),
{
    state.has_member(address)
}

/// Fails with `NotDaoMember` unless `address` is a member.
pub fn ensure_dao_member(state: &ContractState, address: &String) -> (r: Result<(), ContractError>)
    ensures
        r == (if state.is_member(address@) {
            Ok::<(), ContractError>(())
        } else {
            Err(ContractError::NotDaoMember {})
        }),
{
    if !state.has_member(address) {
        return Err(ContractError::NotDaoMember {});
    }
    Ok(())
}

/// Proposal `proposal_id`, or `ProposalNotFound`.
pub fn ensure_proposal_exists(state: &ContractState, proposal_id: u64) -> (r: Result<Proposal, ContractError>)
    requires
        state.wf(),
    ensures
        r == (if proposal_id < state.proposals().len() {
            Ok::<Proposal, ContractError>(state.proposals()[proposal_id as int])
        } else {
            Err(ContractError::ProposalNotFound {})
        }),
{
    if proposal_id >= state.proposal_count() {
        return Err(ContractError::ProposalNotFound {});
    }
    Ok(state.proposal(proposal_id))
}

/// Number of members.
pub fn get_dao_member_count(state: &ContractState) -> (r: u64)
    ensures
        r == state.member_count(),
{
    state.count_members()
}

/// The members, in strictly ascending order, and their number.
pub fn query_dao_members(state: &ContractState) -> (r: DaoMembersResponse)
    requires
        state.wf(),
    ensures
        r.members@.map_values(|m: String| m@) == state.members(),
        ascending(r.members@.map_values(|m: String| m@)),
        r.total_count == state.member_count(),
{
    let members = state.member_list();
    DaoMembersResponse { members, total_count: state.count_members() }
}

/// The governance configuration.
pub fn query_dao_config(state: &ContractState) -> (r: DaoConfigResponse)
    ensures
        r.config == state.config(),
{
    DaoConfigResponse { config: state.dao_config() }
}

/// Proposal `proposal_id`, or `ProposalNotFound`.
pub fn query_proposal(state: &ContractState, proposal_id: u64) -> (r: Result<ProposalResponse, ContractError>)
    requires
        state.wf(),
    ensures
        r == (if proposal_id < state.proposals().len() {
            Ok::<ProposalResponse, ContractError>(ProposalResponse { proposal: state.proposals()[proposal_id as int] })
        } else {
            Err(ContractError::ProposalNotFound {})
        }),
{
    let proposal = ensure_proposal_exists(state, proposal_id)?;
    Ok(ProposalResponse { proposal })
}

/// A page of proposals in ascending id order, starting after
/// `start_after`, holding at most `limit` (thirty by default, a hundred at
/// most) that pass `status_filter`, and the number of all proposals that
/// pass it.
pub fn query_proposals(
    state: &ContractState,
    start_after: Option<u64>,
    limit: Option<u32>,
    status_filter: Option<ProposalStatus>,
) -> (r: ProposalsResponse)
    requires
        state.wf(),
    ensures
        r.proposals@ == page(
            state.proposals().subrange(
                page_start(state.proposals().len(), start_after) as int,
                state.proposals().len() as int,
            ),
            status_filter,
            effective_limit(limit),
        ),
        r.total_count == count_passing(state.proposals(), status_filter),
{
    let wanted = match limit {
        Some(l) => l,
        None => DEFAULT_LIMIT,
    };
    let wanted: usize = if wanted > MAX_LIMIT {
        MAX_LIMIT as usize
    } else {
        wanted as usize
    };
    let n = state.proposal_count();
    let start: u64 = match start_after {
        Some(a) => if a >= n {
            n
        } else {
            a + 1
        },
        None => 0,
    };
    let ghost all = state.proposals();
    let ghost s = all.subrange(start as int, n as int);
    let mut out: Vec<Proposal> = Vec::new();
    let mut i: u64 = start;
    while i < n && out.len() < wanted
        invariant
            n == all.len(),
            start <= i <= n,
            all == state.proposals(),
            s == all.subrange(start as int, n as int),
            wanted == effective_limit(limit),
            out@.len() <= wanted,
            out@ + page(all.subrange(i as int, n as int), status_filter, (wanted - out@.len()) as nat)
                == page(s, status_filter, wanted as nat),
        decreases n - i,
    {
        let ghost rest = all.subrange(i as int, n as int);
        assert(rest.drop_first() =~= all.subrange(i + 1, n as int));
        let p = state.proposal(i);
        let keep = match status_filter {
            Some(f) => p.status == f,
            None => true,
        };
        if keep {
            let ghost before = out@;
            out.push(p);
            assert(out@ + page(all.subrange(i + 1, n as int), status_filter, (wanted - out@.len()) as nat)
                =~= before + page(rest, status_filter, (wanted - before.len()) as nat));
        }
        i = i + 1;
    }
    proof {
        if i >= n {
            assert(all.subrange(i as int, n as int).len() == 0);
        }
        assert(out@ =~= out@ + page(all.subrange(i as int, n as int), status_filter, (wanted - out@.len()) as nat));
    }
    let mut total: u64 = 0;
    let mut k: u64 = 0;
    assert(all.subrange(0, n as int) =~= all);
    while k < n
        invariant
            n == all.len(),
            k <= n,
            all == state.proposals(),
            total + count_passing(all.subrange(k as int, n as int), status_filter) == count_passing(
                all,
                status_filter,
            ),
            total <= k,
        decreases n - k,
    {
        assert(all.subrange(k as int, n as int).drop_first() =~= all.subrange(k + 1, n as int));
        let p = state.proposal_status(k);
        let keep = match status_filter {
            Some(f) => p == f,
            None => true,
        };
        if keep {
            total = total + 1;
        }
        k = k + 1;
    }
    proof {
        assert(all.subrange(0, n as int) =~= all);
    }
    ProposalsResponse { proposals: out, total_count: total }
}

/// The vote that `voter` cast on proposal `proposal_id`, if any.
pub fn query_vote(state: &ContractState, proposal_id: u64, voter: &String) -> (r: VoteResponse)
    requires
        state.wf(),
    ensures
        r.vote == (if proposal_id < state.proposals().len() && has_voted(
            state.ballots()[proposal_id as int],
            voter@,
        ) {
            Some(
                state.ballots()[proposal_id as int][vote_index(
                    state.ballots()[proposal_id as int],
                    voter@,
                )],
            )
        } else {
            None
        }),
{
    if proposal_id >= state.proposal_count() {
        return VoteResponse { vote: None };
    }
    VoteResponse { vote: state.vote_of(proposal_id, voter) }
}

/// The tally of proposal `proposal_id`, or `ProposalNotFound`.
pub fn query_vote_count(state: &ContractState, proposal_id: u64) -> (r: Result<VoteCountResponse, ContractError>)
    requires
        state.wf(),
    ensures
        r == (if proposal_id < state.proposals().len() {
            Ok::<VoteCountResponse, ContractError>(VoteCountResponse { vote_count: state.tallies()[proposal_id as int] })
        } else {
            Err(ContractError::ProposalNotFound {})
        }),
{
    let vote_count = calculate_vote_statistics(state, proposal_id)?;
    Ok(VoteCountResponse { vote_count })
}

/// One vote for a member, none otherwise.
pub fn query_member_voting_power(state: &ContractState, member: &String) -> (r: VotingPowerResponse)
    ensures
        r.is_member == state.is_member(member@),
        r.power == (if state.is_member(member@) { 1u64 } else { 0u64 }),
{
    let is_member = state.has_member(member);
    let power: u64 = if is_member { 1 } else { 0 };
    VotingPowerResponse { power, is_member }
}

/// The tally of proposal `proposal_id`, or `ProposalNotFound`.
pub fn calculate_vote_statistics(state: &ContractState, proposal_id: u64) -> (r: Result<VoteCount, ContractError>)
    requires
        state.wf(),
    ensures
        r == (if proposal_id < state.proposals().len() {
            Ok::<VoteCount, ContractError>(state.tallies()[proposal_id as int])
        } else {
            Err(ContractError::ProposalNotFound {})
        }),
{
    if proposal_id >= state.proposal_count() {
        return Err(ContractError::ProposalNotFound {});
    }
    Ok(state.tally(proposal_id))
}

/// Whether proposal `proposal_id` has reached the threshold.
pub fn check_approval_threshold(state: &ContractState, proposal_id: u64) -> (r: Result<bool, ContractError>)
    requires
        state.wf(),
    ensures
        r == (if proposal_id < state.proposals().len() {
            Ok::<bool, ContractError>(reaches_threshold(state.tallies()[proposal_id as int], state.config()))
        } else {
            Err(ContractError::ProposalNotFound {})
        }),
{
    let t = calculate_vote_statistics(state, proposal_id)?;
    Ok(meets_threshold(t, state.dao_config()))
}

/// Whether proposal `proposal_id` can no longer reach the threshold.
pub fn check_impossible_to_pass(state: &ContractState, proposal_id: u64) -> (r: Result<bool, ContractError>)
    requires
        state.wf(),
    ensures
        r == (if proposal_id < state.proposals().len() {
            Ok::<bool, ContractError>(cannot_reach_threshold(state.tallies()[proposal_id as int], state.config()))
        } else {
            Err(ContractError::ProposalNotFound {})
        }),
{
    let t = calculate_vote_statistics(state, proposal_id)?;
    Ok(threshold_out_of_reach(t, state.dao_config()))
}

/// The tally of proposal `proposal_id`, whether it has passed the
/// threshold, whether it can no longer reach it, and the yes votes needed.
pub fn get_detailed_vote_statistics(state: &ContractState, proposal_id: u64) -> (r: Result<
    (VoteCount, bool, bool, u64),
    ContractError,
>)
    requires
        state.wf(),
    ensures
        r == (if proposal_id < state.proposals().len() {
            let t = state.tallies()[proposal_id as int];
            Ok::<(VoteCount, bool, bool, u64), ContractError>(
                (
                    t,
                    reaches_threshold(t, state.config()),
                    cannot_reach_threshold(t, state.config()),
                    required_yes(t.total_eligible, state.config().approval_threshold) as u64,
                ),
            )
        } else {
            Err(ContractError::ProposalNotFound {})
        }),
{
    let t = calculate_vote_statistics(state, proposal_id)?;
    let config = state.dao_config();
    let passed = meets_threshold(t, config);
    let impossible = threshold_out_of_reach(t, config);
    let required = required_yes_votes(t.total_eligible, config.approval_threshold);
    Ok((t, passed, impossible, required))
}

/// Counts the ledger of proposal `proposal_id` afresh; by the store's
/// invariant this always agrees with its tally.
pub fn recount_votes(state: &ContractState, proposal_id: u64) -> (r: Result<VoteCount, ContractError>)
    requires
        state.wf(),
    ensures
        proposal_id >= state.proposals().len() ==> r == Err::<VoteCount, ContractError>(
            ContractError::ProposalNotFound {},
        ),
        proposal_id < state.proposals().len() ==> r == Ok::<VoteCount, ContractError>(
            state.tallies()[proposal_id as int],
        ),
{
    if proposal_id >= state.proposal_count() {
        return Err(ContractError::ProposalNotFound {});
    }
    let ledger = state.ledger(proposal_id);
    let ghost s = ledger@;
    let mut yes: u64 = 0;
    let mut no: u64 = 0;
    let mut abstain: u64 = 0;
    let mut i: usize = 0;
    while i < ledger.len()
        invariant
            s == ledger@,
            i <= s.len(),
            yes == count_choice(s.subrange(0, i as int), VoteChoice::Yes),
            no == count_choice(s.subrange(0, i as int), VoteChoice::No),
            abstain == count_choice(s.subrange(0, i as int), VoteChoice::Abstain),
            tally_matches(state.tallies()[proposal_id as int], s),
            s.len() <= ledger.len(),
        decreases s.len() - i,
    {
        assert(s.subrange(0, i + 1).drop_last() =~= s.subrange(0, i as int));
        proof {
            crate::ledger::lemma_count_bounded(s.subrange(0, i as int), VoteChoice::Yes);
            crate::ledger::lemma_count_bounded(s.subrange(0, i as int), VoteChoice::No);
            crate::ledger::lemma_count_bounded(s.subrange(0, i as int), VoteChoice::Abstain);
        }
        match ledger[i].choice {
            VoteChoice::Yes => yes = yes + 1,
            VoteChoice::No => no = no + 1,
            VoteChoice::Abstain => abstain = abstain + 1,
        }
        i = i + 1;
    }
    assert(s.subrange(0, s.len() as int) =~= s);
    let t = state.tally(proposal_id);
    Ok(VoteCount { yes, no, abstain, total_eligible: t.total_eligible })
}

/// For each id, whether that proposal's window has closed at `now`; fails
/// with `ProposalNotFound` if any id is unknown.
pub fn batch_check_proposal_expiration(state: &ContractState, now: u64, proposal_ids: &[u64]) -> (r: Result<
    Vec<(u64, bool)>,
    ContractError,
>)
    requires
        state.wf(),
    ensures
        r is Err <==> (exists|k: int| 0 <= k < proposal_ids@.len() && proposal_ids@[k] >= state.proposals().len()),
        r matches Err(e) ==> e == (ContractError::ProposalNotFound {}),
        r matches Ok(v) ==> v@.len() == proposal_ids@.len() && (forall|k: int|
            0 <= k < v@.len() ==> #[trigger] v@[k] == (
                proposal_ids@[k],
                expired_at(now, state.proposals()[proposal_ids@[k] as int]),
            )),
{
    let mut results: Vec<(u64, bool)> = Vec::new();
    let mut i: usize = 0;
    while i < proposal_ids.len()
        invariant
            state.wf(),
            i <= proposal_ids@.len(),
            results@.len() == i,
            forall|k: int| 0 <= k < i ==> proposal_ids@[k] < state.proposals().len(),
            forall|k: int|
                0 <= k < i ==> #[trigger] results@[k] == (
                    proposal_ids@[k],
                    expired_at(now, state.proposals()[proposal_ids@[k] as int]),
                ),
        decreases proposal_ids@.len() - i,
    {
        let id = proposal_ids[i];
        let p = ensure_proposal_exists(state, id)?;
        results.push((id, now > p.voting_end));
        i = i + 1;
    }
    Ok(results)
}

/// Name, symbol and owner of the instance.
pub fn query_contract_info(state: &ContractState) -> (r: ContractInfoResponse)
    ensures
        r.name@ == state.name(),
        r.symbol@ == state.symbol(),
        r.owner@ == state.owner(),
{
    state.info()
}

/// Number of records.
pub fn query_num_tokens(state: &ContractState) -> (r: NumTokensResponse)
    requires
        state.wf(),
    ensures
        r.count == state.registry().items().len(),
{
    NumTokensResponse { count: state.records().len() }
}

/// Record `token_id`, or `TokenNotFound`.
pub fn query_data_item(state: &ContractState, token_id: u64) -> (r: Result<DataItem, ContractError>)
    requires
        state.wf(),
    ensures
        r == (if token_id < state.registry().items().len() {
            Ok::<DataItem, ContractError>(state.registry().items()[token_id as int])
        } else {
            Err(ContractError::TokenNotFound {})
        }),
{
    match state.records().item(token_id) {
        Some(item) => Ok(item.clone()),
        None => Err(ContractError::TokenNotFound {}),
    }
}

/// The content history of record `token_id`, or `TokenNotFound`.
pub fn query_data_versions(state: &ContractState, token_id: u64) -> (r: Result<Vec<DataVersion>, ContractError>)
    requires
        state.wf(),
    ensures
        token_id >= state.registry().items().len() ==> r == Err::<Vec<DataVersion>, ContractError>(
            ContractError::TokenNotFound {},
        ),
        r matches Ok(v) ==> token_id < state.registry().items().len() && v@ == state.registry().versions()[token_id as int],
        token_id < state.registry().items().len() ==> r is Ok,
{
    match state.records().history(token_id) {
        Some(history) => {
            let mut out: Vec<DataVersion> = Vec::new();
            let mut i: usize = 0;
            while i < history.len()
                invariant
                    i <= history@.len(),
                    out@ == history@.subrange(0, i as int),
                decreases history@.len() - i,
            {
                out.push(history[i].clone());
                assert(out@ =~= history@.subrange(0, i + 1));
                i = i + 1;
            }
            assert(out@ =~= history@);
            Ok(out)
        },
        None => Err(ContractError::TokenNotFound {}),
    }
}

/// The DOI of paper `paper_id`, or `TokenNotFound` when there is no such
/// record or it is not a paper.
pub fn query_paper_doi(state: &ContractState, paper_id: u64) -> (r: Result<String, ContractError>)
    requires
        state.wf(),
    ensures
        r == (if paper_id < state.registry().items().len() && state.registry().dois()[paper_id as int] is Some {
            Ok::<String, ContractError>(state.registry().dois()[paper_id as int]->Some_0)
        } else {
            Err(ContractError::TokenNotFound {})
        }),
{
    match state.records().doi(paper_id) {
        Some(d) => Ok(d.clone()),
        None => Err(ContractError::TokenNotFound {}),
    }
}

/// The fee for citing a paper.
pub fn query_base_citation_fee(state: &ContractState) -> (r: u128)
    ensures
        r == state.base_citation_fee(),
{
    state.citation_fee()
}

/// The owner of record `token_id`, or `TokenNotFound`.
pub fn query_owner_of(state: &ContractState, token_id: u64) -> (r: Result<String, ContractError>)
    requires
        state.wf(),
    ensures
        token_id >= state.registry().items().len() ==> r == Err::<String, ContractError>(ContractError::TokenNotFound {}),
        token_id < state.registry().items().len() ==> (r matches Ok(o) && o@ == state.registry().items()[token_id as int].owner@),
{
    match state.records().item(token_id) {
        Some(item) => Ok(item.owner.clone()),
        None => Err(ContractError::TokenNotFound {}),
    }
}

/// Record `token_id` with its number and owner, or `TokenNotFound`.
pub fn query_token_info(state: &ContractState, token_id: u64) -> (r: Result<TokenInfoResponse, ContractError>)
    requires
        state.wf(),
    ensures
        token_id >= state.registry().items().len() ==> r == Err::<TokenInfoResponse, ContractError>(
            ContractError::TokenNotFound {},
        ),
        token_id < state.registry().items().len() ==> (r matches Ok(info) && info.token_id == token_id
            && info.owner@ == state.registry().items()[token_id as int].owner@ && info.data_item
            == state.registry().items()[token_id as int]),
{
    match state.records().item(token_id) {
        Some(item) => Ok(TokenInfoResponse { token_id, owner: item.owner.clone(), data_item: item.clone() }),
        None => Err(ContractError::TokenNotFound {}),
    }
}

/// Record numbers in ascending order, after `start_after`, at most `limit`
/// of them (thirty by default, a hundred at most).
pub fn query_all_tokens(state: &ContractState, start_after: Option<u64>, limit: Option<u32>) -> (r: Vec<u64>)
    requires
        state.wf(),
    ensures
        ({
            let n = state.registry().items().len() as int;
            let start: int = match start_after {
                Some(a) => if a + 1 > n { n } else { a + 1 },
                None => 0,
            };
            let l: int = match limit {
                Some(l) => if l > 100 { 100 } else { l as int },
                None => 30,
            };
            let count: int = if n - start < l { n - start } else { l };
            &&& r@.len() == count
            &&& forall|k: int| 0 <= k < count ==> #[trigger] r@[k] == start + k
        }),
{
    let n = state.records().len();
    let wanted: u64 = match limit {
        Some(l) => if l > 100 { 100 } else { l as u64 },
        None => 30,
    };
    let mut id: u64 = match start_after {
        Some(a) => if a >= n { n } else { a + 1 },
        None => 0,
    };
    let ghost start = id;
    let mut out: Vec<u64> = Vec::new();
    while id < n && (out.len() as u64) < wanted
        invariant
            start <= id <= n,
            out@.len() == id - start,
            out@.len() <= wanted,
            forall|k: int| 0 <= k < out@.len() ==> #[trigger] out@[k] == start + k,
        decreases n - id,
    {
        out.push(id);
        id = id + 1;
    }
    out
}

/// The users holding some access to record `token_id`.
pub fn query_authorized_users(state: &ContractState, token_id: u64) -> (r: Vec<String>)
    requires
        state.wf(),
    ensures
        r@.map_values(|a: String| a@) == (if token_id < state.registry().items().len() {
            state.registry().authorized()[token_id as int]
        } else {
            Seq::empty()
        }),
{
    state.records().authorized_users(token_id)
}

/// The level of access that `user` holds to record `token_id`; none for an
/// unknown record.
pub fn query_access_level(state: &ContractState, token_id: u64, user: &String) -> (r: AccessLevel)
    requires
        state.wf(),
    ensures
        r == (if token_id < state.registry().items().len() {
            state.registry().access_level(token_id as int, user@)
        } else {
            AccessLevel::NoAccess
        }),
{
    if token_id >= state.records().len() {
        return AccessLevel::NoAccess;
    }
    state.records().level_of(token_id, user)
}

/// The citations of paper `paper_id`; none for an unknown record.
pub fn query_citations(state: &ContractState, paper_id: u64) -> (r: Vec<Citation>)
    requires
        state.wf(),
    ensures
        r@ == (if paper_id < state.registry().items().len() {
            state.registry().citations()[paper_id as int]
        } else {
            Seq::empty()
        }),
{
    state.records().citations_of(paper_id)
}

} // verus!
