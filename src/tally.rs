//! Threshold arithmetic and the incremental tally of one proposal.
use vstd::prelude::*;

use crate::msg::{DaoConfig, VoteChoice, VoteCount};

verus! {

/// `ceil(total_eligible * approval_threshold / 100)`: the yes votes that a
/// proposal needs.
pub open spec fn required_yes(total_eligible: u64, approval_threshold: u64) -> int {
    (total_eligible * approval_threshold + 99) / 100
}

/// Votes cast so far, of any choice.
pub open spec fn voted(t: VoteCount) -> int {
    t.yes + t.no + t.abstain
}

/// Eligible voters that have not voted yet, never below zero.
pub open spec fn remaining_votes(t: VoteCount) -> int {
    if voted(t) >= t.total_eligible {
        0
    } else {
        t.total_eligible - voted(t)
    }
}

/// The tally has reached the approval threshold.
pub open spec fn reaches_threshold(t: VoteCount, c: DaoConfig) -> bool {
    t.yes >= required_yes(t.total_eligible, c.approval_threshold)
}

/// Even if every remaining voter said yes, the threshold would not be met.
pub open spec fn cannot_reach_threshold(t: VoteCount, c: DaoConfig) -> bool {
    t.yes + remaining_votes(t) < required_yes(t.total_eligible, c.approval_threshold)
}

/// The counter of one choice.
pub open spec fn bucket(t: VoteCount, c: VoteChoice) -> int {
    match c {
        VoteChoice::Yes => t.yes as int,
        VoteChoice::No => t.no as int,
        VoteChoice::Abstain => t.abstain as int,
    }
}

/// The tally with one vote of `c` added (`delta == 1`) or taken away
/// (`delta == -1`); the eligible count is untouched.
pub open spec fn shift(t: VoteCount, c: VoteChoice, delta: int) -> VoteCount {
    match c {
        VoteChoice::Yes => VoteCount { yes: (t.yes + delta) as u64, ..t },
        VoteChoice::No => VoteCount { no: (t.no + delta) as u64, ..t },
        VoteChoice::Abstain => VoteCount { abstain: (t.abstain + delta) as u64, ..t },
    }
}

/// The tally after `choice` is cast by a voter whose earlier vote, if any,
/// was `prior`: the earlier vote leaves its bucket, the new one enters its own.
pub open spec fn tally_after(t: VoteCount, prior: Option<VoteChoice>, choice: VoteChoice) -> VoteCount {
    match prior {
        Some(p) => shift(shift(t, p, -1), choice, 1),
        None => shift(t, choice, 1),
    }
}

/// The tally after one eligible voter leaves, floored at zero.
pub open spec fn tally_without_voter(t: VoteCount) -> VoteCount {
    VoteCount { total_eligible: if t.total_eligible > 0 { (t.total_eligible - 1) as u64 } else { 0 }, ..t }
}

/// Computes `ceil(total_eligible * approval_threshold / 100)`.
pub fn required_yes_votes(total_eligible: u64, approval_threshold: u64) -> (r: u64)
    requires
        approval_threshold <= 100,
    ensures
        r == required_yes(total_eligible, approval_threshold),
        r <= total_eligible,
{
    proof {
        assert(total_eligible * approval_threshold <= total_eligible * 100) by (nonlinear_arith)
            requires approval_threshold <= 100;
    }
    let product: u128 = (total_eligible as u128) * (approval_threshold as u128);
    let r: u128 = (product + 99) / 100;
    r as u64
}

/// Whether the tally meets the configured approval threshold.
pub fn meets_threshold(t: VoteCount, config: DaoConfig) -> (r: bool)
    requires
        config.approval_threshold <= 100,
    ensures
        r == reaches_threshold(t, config),
{
    t.yes >= required_yes_votes(t.total_eligible, config.approval_threshold)
}

/// Whether the proposal can no longer reach the threshold, even if every
/// eligible voter who has not voted yet votes yes.
pub fn threshold_out_of_reach(t: VoteCount, config: DaoConfig) -> (r: bool)
    requires
        config.approval_threshold <= 100,
    ensures
        r == cannot_reach_threshold(t, config),
{
    let required = required_yes_votes(t.total_eligible, config.approval_threshold);
    let cast: u128 = t.yes as u128 + t.no as u128 + t.abstain as u128;
    let remaining: u128 = if cast >= t.total_eligible as u128 {
        0
    } else {
        t.total_eligible as u128 - cast
    };
    (t.yes as u128) + remaining < required as u128
}

/// Lowers the eligible count by one, never below zero.
pub fn without_voter(t: VoteCount) -> (r: VoteCount)
    ensures
        r == tally_without_voter(t),
{
    if t.total_eligible > 0 {
        VoteCount { total_eligible: t.total_eligible - 1, ..t }
    } else {
        t
    }
}

} // verus!
