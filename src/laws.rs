//! Properties that hold across the engine's operations, stated over the
//! same spec functions that the operations' contracts use.
use vstd::prelude::*;

use crate::contract::{evaluation, execute_error, vote_error, ContractState};
use crate::helpers::{execute_gate_error, status_step, valid_transition};
use crate::msg::{DaoConfig, Proposal, ProposalStatus, VoteChoice, VoteCount};
use crate::registry::Registry;
use crate::tally::{bucket, reaches_threshold, tally_after, voted};

verus! {

/// A vote moves its proposal along the lifecycle: at most one step, or two
/// through `Passed`. A proposal that a vote leaves executed had reached the
/// threshold, that is, it passed first.
pub proof fn lemma_evaluation_follows_lifecycle(
    p: Proposal,
    t: VoteCount,
    c: DaoConfig,
    reg: Registry,
    now: u64,
    status: ProposalStatus,
    next: Registry,
)
    requires
        evaluation(p, t, c, reg, now, status, next),
    ensures
        status_step(p.status, status),
        status == ProposalStatus::Executed && p.status != ProposalStatus::Executed ==> p.status
            == ProposalStatus::Active && reaches_threshold(t, c) && valid_transition(
            p.status,
            ProposalStatus::Passed,
        ) && valid_transition(ProposalStatus::Passed, status),
{
}

/// Only a passed proposal can be executed, so a proposal executes its
/// payload at most once; and nothing leaves `Executed`.
pub proof fn lemma_execution_only_from_passed(now: u64, p: Proposal, to: ProposalStatus)
    ensures
        execute_gate_error(now, p) is None ==> p.status == ProposalStatus::Passed,
        p.status == ProposalStatus::Executed ==> execute_gate_error(now, p) is Some,
        !valid_transition(ProposalStatus::Executed, to),
        status_step(ProposalStatus::Executed, to) ==> to == ProposalStatus::Executed,
{
}

/// A second vote of the same voter swaps one vote between counters: the
/// number of votes cast grows by one for a first vote and not at all for a
/// later one, and the eligible count never changes.
pub proof fn lemma_revote_does_not_double_count(
    t: VoteCount,
    prior: Option<VoteChoice>,
    choice: VoteChoice,
)
    requires
        prior matches Some(c) ==> bucket(t, c) >= 1,
        bucket(t, choice) < u64::MAX,
    ensures
        voted(tally_after(t, prior, choice)) == voted(t) + if prior is None {
            1int
        } else {
            0int
        },
        tally_after(t, prior, choice).total_eligible == t.total_eligible,
{
}

/// Once a proposal's deadline has passed, neither a vote on it nor its
/// execution succeeds, whoever asks.
pub proof fn lemma_nothing_after_deadline(
    state: ContractState,
    sender: Seq<char>,
    proposal_id: u64,
    now: u64,
)
    requires
        proposal_id < state.proposals().len(),
        now > state.proposals()[proposal_id as int].voting_end,
    ensures
        vote_error(state, sender, proposal_id, now) is Some,
        execute_error(state, sender, proposal_id, now) is Some,
{
}

/// Removing a member lowers the eligible count of every active proposal by
/// exactly one, never below zero, and touches nothing else in any tally.
pub proof fn lemma_removal_shrinks_active_tallies(state: ContractState)
    requires
        state.wf(),
    ensures
        state.tallies_after_removal().len() == state.tallies().len(),
        forall|i: int|
            0 <= i < state.tallies().len() ==> {
                let before = state.tallies()[i];
                let after = #[trigger] state.tallies_after_removal()[i];
                &&& after.yes == before.yes && after.no == before.no && after.abstain == before.abstain
                &&& state.proposals()[i].status == ProposalStatus::Active ==> after.total_eligible == if before.total_eligible > 0 {
                    before.total_eligible - 1
                } else {
                    0
                }
                &&& state.proposals()[i].status != ProposalStatus::Active ==> after.total_eligible
                    == before.total_eligible
            },
{
}

} // verus!
