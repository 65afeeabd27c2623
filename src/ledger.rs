//! The vote ledger of one proposal: at most one vote per voter, a later
//! vote replacing the earlier one, and the counts of each choice.
use vstd::prelude::*;

use crate::msg::{Vote, VoteChoice, VoteCount};
use crate::tally::{bucket, tally_after};

verus! {

/// How many votes of the ledger chose `c`.
pub open spec fn count_choice(s: Seq<Vote>, c: VoteChoice) -> nat
    decreases s.len(),
{
    if s.len() == 0 {
        0
    } else {
        count_choice(s.drop_last(), c) + if s.last().choice == c {
            1nat
        } else {
            0nat
        }
    }
}

/// The tally's choice counters are exactly the ledger's counts.
pub open spec fn tally_matches(t: VoteCount, s: Seq<Vote>) -> bool {
    &&& t.yes == count_choice(s, VoteChoice::Yes)
    &&& t.no == count_choice(s, VoteChoice::No)
    &&& t.abstain == count_choice(s, VoteChoice::Abstain)
}

/// No voter appears twice.
pub open spec fn one_vote_each(s: Seq<Vote>) -> bool {
    forall|i: int, j: int| 0 <= i < s.len() && 0 <= j < s.len() && i != j ==> #[trigger] s[i].voter@
        != #[trigger] s[j].voter@
}

/// The voter has a vote in the ledger.
pub open spec fn has_voted(s: Seq<Vote>, voter: Seq<char>) -> bool {
    exists|j: int| 0 <= j < s.len() && #[trigger] s[j].voter@ == voter
}

/// Where the voter's vote stands in the ledger.
pub open spec fn vote_index(s: Seq<Vote>, voter: Seq<char>) -> int
    recommends
        has_voted(s, voter),
{
    choose|j: int| 0 <= j < s.len() && #[trigger] s[j].voter@ == voter
}

/// The voter's current choice, if the voter has voted.
pub open spec fn prior_choice(s: Seq<Vote>, voter: Seq<char>) -> Option<VoteChoice> {
    if has_voted(s, voter) {
        Some(s[vote_index(s, voter)].choice)
    } else {
        None
    }
}

/// The ledger once `v` is recorded: it replaces the voter's earlier vote, or
/// is appended if there was none.
pub open spec fn ledger_after(s: Seq<Vote>, v: Vote) -> Seq<Vote> {
    if has_voted(s, v.voter@) {
        s.update(vote_index(s, v.voter@), v)
    } else {
        s.push(v)
    }
}

pub proof fn lemma_count_push(s: Seq<Vote>, v: Vote, c: VoteChoice)
    ensures
        count_choice(s.push(v), c) == count_choice(s, c) + if v.choice == c {
            1nat
        } else {
            0nat
        },
{
    assert(s.push(v).drop_last() =~= s);
}

pub proof fn lemma_count_update(s: Seq<Vote>, j: int, v: Vote, c: VoteChoice)
    requires
        0 <= j < s.len(),
    ensures
        count_choice(s.update(j, v), c) + (if s[j].choice == c {
            1nat
        } else {
            0nat
        }) == count_choice(s, c) + if v.choice == c {
            1nat
        } else {
            0nat
        },
    decreases s.len(),
{
    let u = s.update(j, v);
    if j == s.len() - 1 {
        assert(u.drop_last() =~= s.drop_last());
    } else {
        assert(u.drop_last() =~= s.drop_last().update(j, v));
        lemma_count_update(s.drop_last(), j, v, c);
    }
}

pub proof fn lemma_count_bounded(s: Seq<Vote>, c: VoteChoice)
    ensures
        count_choice(s, c) <= s.len(),
    decreases s.len(),
{
    if s.len() > 0 {
        lemma_count_bounded(s.drop_last(), c);
    }
}

pub proof fn lemma_count_positive(s: Seq<Vote>, j: int)
    requires
        0 <= j < s.len(),
    ensures
        count_choice(s, s[j].choice) >= 1,
    decreases s.len(),
{
    if j < s.len() - 1 {
        lemma_count_positive(s.drop_last(), j);
    }
}

/// Recording a vote keeps the tally equal to the ledger's counts, and the
/// new tally is the old one with the earlier vote swapped for the new.
pub proof fn lemma_record_vote(s: Seq<Vote>, t: VoteCount, v: Vote)
    requires
        tally_matches(t, s),
        ledger_after(s, v).len() <= u64::MAX,
    ensures
        tally_matches(tally_after(t, prior_choice(s, v.voter@), v.choice), ledger_after(s, v)),
        forall|c: VoteChoice|
            #[trigger] count_choice(ledger_after(s, v), c) == bucket(t, c) - (if prior_choice(
                s,
                v.voter@,
            ) == Some(c) {
                1int
            } else {
                0int
            }) + (if v.choice == c {
                1int
            } else {
                0int
            }),
        forall|c: VoteChoice| #[trigger] count_choice(ledger_after(s, v), c) <= u64::MAX,
{
    let u = ledger_after(s, v);
    lemma_count_bounded(u, VoteChoice::Yes);
    lemma_count_bounded(u, VoteChoice::No);
    lemma_count_bounded(u, VoteChoice::Abstain);
    if has_voted(s, v.voter@) {
        let j = vote_index(s, v.voter@);
        lemma_count_positive(s, j);
        lemma_count_update(s, j, v, VoteChoice::Yes);
        lemma_count_update(s, j, v, VoteChoice::No);
        lemma_count_update(s, j, v, VoteChoice::Abstain);
    } else {
        lemma_count_push(s, v, VoteChoice::Yes);
        lemma_count_push(s, v, VoteChoice::No);
        lemma_count_push(s, v, VoteChoice::Abstain);
    }
}

/// Recording a vote keeps every voter to one vote.
pub proof fn lemma_record_keeps_one_vote_each(s: Seq<Vote>, v: Vote)
    requires
        one_vote_each(s),
    ensures
        one_vote_each(ledger_after(s, v)),
{
    if has_voted(s, v.voter@) {
        let j = vote_index(s, v.voter@);
        let u = s.update(j, v);
        assert forall|a: int, b: int| 0 <= a < u.len() && 0 <= b < u.len() && a != b implies #[trigger] u[a].voter@
            != #[trigger] u[b].voter@ by {
            if a == j {
                assert(s[j].voter@ == v.voter@);
                assert(s[b].voter@ != s[j].voter@);
            } else if b == j {
                assert(s[a].voter@ != s[j].voter@);
            }
        }
    } else {
        let u = s.push(v);
        assert forall|a: int, b: int| 0 <= a < u.len() && 0 <= b < u.len() && a != b implies #[trigger] u[a].voter@
            != #[trigger] u[b].voter@ by {
            if a == s.len() {
                assert(u[b] == s[b]);
            } else if b == s.len() {
                assert(u[a] == s[a]);
            }
        }
    }
}

/// Where `voter`'s vote stands in the ledger, if anywhere.
pub fn find_vote(ledger: &Vec<Vote>, voter: &String) -> (r: Option<usize>)
    ensures
        r is Some <==> has_voted(ledger@, voter@),
        r matches Some(j) ==> j < ledger@.len() && ledger@[j as int].voter@ == voter@,
{
    let mut i: usize = 0;
    while i < ledger.len()
        invariant
            i <= ledger@.len(),
            forall|j: int| 0 <= j < i ==> #[trigger] ledger@[j].voter@ != voter@,
        decreases ledger@.len() - i,
    {
        if ledger[i].voter == *voter {
            return Some(i);
        }
        i = i + 1;
    }
    None
}

} // verus!
