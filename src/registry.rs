//! The record registry that publication proposals hand their work to:
//! records numbered from zero in order of creation, each with its content
//! history and, for a paper, its DOI.
use vstd::prelude::*;

use crate::msg::{AccessLevel, Citation, DataVersion};

verus! {

/// One record of the registry.
#[derive(Debug, PartialEq)]
pub struct DataItem {
    pub owner: String,
    pub ipfs_hash: String,
    pub price: u128,
    pub is_public: bool,
    pub total_earned: u128,
    pub created_at: u64,
    pub last_updated: u64,
    pub metadata_uri: String,
    pub is_frozen: bool,
}

impl Clone for DataItem {
    fn clone(&self) -> (r: Self)
        ensures
            r == *self,
    {
        DataItem {
            owner: self.owner.clone(),
            ipfs_hash: self.ipfs_hash.clone(),
            price: self.price,
            is_public: self.is_public,
            total_earned: self.total_earned,
            created_at: self.created_at,
            last_updated: self.last_updated,
            metadata_uri: self.metadata_uri.clone(),
            is_frozen: self.is_frozen,
        }
    }
}

/// A fresh record as the registry creates it: owned by `owner`, content
/// `ipfs_hash`, created and last updated at `now`, not frozen, nothing earned.
pub open spec fn new_item(
    owner: Seq<char>,
    ipfs_hash: Seq<char>,
    price: u128,
    is_public: bool,
    metadata_uri: Seq<char>,
    now: u64,
    item: DataItem,
) -> bool {
    &&& item.owner@ == owner
    &&& item.ipfs_hash@ == ipfs_hash
    &&& item.price == price
    &&& item.is_public == is_public
    &&& item.total_earned == 0
    &&& item.created_at == now
    &&& item.last_updated == now
    &&& item.metadata_uri@ == metadata_uri
    &&& !item.is_frozen
}

/// The slot holds this DOI.
pub open spec fn doi_is(slot: Option<String>, doi: Seq<char>) -> bool {
    match slot {
        Some(d) => d@ == doi,
        None => false,
    }
}

/// The record store. Record `i` has content history `versions()[i]` and,
/// if it is a paper, DOI `dois()[i]`.
pub struct Registry {
    items: Vec<DataItem>,
    versions: Vec<Vec<DataVersion>>,
    dois: Vec<Option<String>>,
    citations: Vec<Vec<Citation>>,
    approvals: Vec<Option<String>>,
    operators: Vec<(String, String)>,
    levels: Vec<Vec<(String, AccessLevel)>>,
    authorized: Vec<Vec<String>>,
}

/// The grant list names `user`.
pub open spec fn grants_to(g: Seq<(String, AccessLevel)>, user: Seq<char>) -> bool {
    exists|j: int| 0 <= j < g.len() && (#[trigger] g[j]).0@ == user
}

/// The level that the grant list gives `user`: the one recorded for the
/// user, or no access.
pub open spec fn level_in(g: Seq<(String, AccessLevel)>, user: Seq<char>) -> AccessLevel {
    if grants_to(g, user) {
        g[choose|j: int| 0 <= j < g.len() && (#[trigger] g[j]).0@ == user].1
    } else {
        AccessLevel::NoAccess
    }
}

/// Each user appears at most once in the grant list.
pub open spec fn one_grant_each(g: Seq<(String, AccessLevel)>) -> bool {
    forall|i: int, j: int| 0 <= i < g.len() && 0 <= j < g.len() && i != j ==> (#[trigger] g[i]).0@ != (
    #[trigger] g[j]).0@
}

impl Registry {
    pub closed spec fn items(&self) -> Seq<DataItem> {
        self.items@
    }

    pub closed spec fn versions(&self) -> Seq<Seq<DataVersion>> {
        self.versions@.map_values(|v: Vec<DataVersion>| v@)
    }

    pub closed spec fn dois(&self) -> Seq<Option<String>> {
        self.dois@
    }

    /// The citations of each record.
    pub closed spec fn citations(&self) -> Seq<Seq<Citation>> {
        self.citations@.map_values(|c: Vec<Citation>| c@)
    }

    /// The account approved to act on each record, if any.
    pub closed spec fn approvals(&self) -> Seq<Option<String>> {
        self.approvals@
    }

    /// The (owner, operator) pairs: each operator may act on all of the
    /// owner's records.
    pub closed spec fn operators(&self) -> Seq<(String, String)> {
        self.operators@
    }

    /// The access grants of each record.
    pub closed spec fn levels(&self) -> Seq<Seq<(String, AccessLevel)>> {
        self.levels@.map_values(|g: Vec<(String, AccessLevel)>| g@)
    }

    /// The users holding some access to each record.
    pub closed spec fn authorized(&self) -> Seq<Seq<Seq<char>>> {
        self.authorized@.map_values(|u: Vec<String>| u@.map_values(|a: String| a@))
    }

    /// `operator` may act on every record of `owner`.
    pub open spec fn is_operator(&self, owner: Seq<char>, operator: Seq<char>) -> bool {
        exists|k: int| 0 <= k < self.operators().len() && (#[trigger] self.operators()[k]).0@ == owner
            && self.operators()[k].1@ == operator
    }

    /// `spender` owns record `id`, is approved for it, or operates for its
    /// owner.
    pub open spec fn approved_or_owner(&self, id: int, spender: Seq<char>) -> bool {
        ||| self.items()[id].owner@ == spender
        ||| (self.approvals()[id] matches Some(a) && a@ == spender)
        ||| self.is_operator(self.items()[id].owner@, spender)
    }

    /// The level of access that `user` holds to record `id`.
    pub open spec fn access_level(&self, id: int, user: Seq<char>) -> AccessLevel {
        level_in(self.levels()[id], user)
    }

    /// One entry per record in every table, one grant per user, and each
    /// user listed as authorized at most once.
    pub open spec fn wf(&self) -> bool {
        &&& self.versions().len() == self.items().len()
        &&& self.dois().len() == self.items().len()
        &&& self.citations().len() == self.items().len()
        &&& self.approvals().len() == self.items().len()
        &&& self.levels().len() == self.items().len()
        &&& self.authorized().len() == self.items().len()
        &&& forall|i: int| 0 <= i < self.levels().len() ==> one_grant_each(#[trigger] self.levels()[i])
        &&& forall|i: int| 0 <= i < self.authorized().len() ==> (#[trigger] self.authorized()[i]).no_duplicates()
    }

    /// Some paper of the registry carries this DOI.
    pub open spec fn doi_taken(&self, doi: Seq<char>) -> bool {
        exists|i: int| 0 <= i < self.dois().len() && doi_is(#[trigger] self.dois()[i], doi)
    }

    /// `self` with one record appended, with a single version `ipfs_hash` at
    /// `now`, and DOI `doi`.
    pub open spec fn appended(
        &self,
        next: Registry,
        item: DataItem,
        doi: Option<Seq<char>>,
        now: u64,
    ) -> bool {
        &&& next.items() == self.items().push(item)
        &&& next.versions().len() == self.versions().len() + 1
        &&& next.versions().subrange(0, self.versions().len() as int) == self.versions()
        &&& next.versions().last().len() == 1
        &&& next.versions().last()[0].ipfs_hash@ == item.ipfs_hash@
        &&& next.versions().last()[0].timestamp == now
        &&& next.dois().len() == self.dois().len() + 1
        &&& next.dois().subrange(0, self.dois().len() as int) == self.dois()
        &&& next.citations() == self.citations().push(Seq::empty())
        &&& next.approvals() == self.approvals().push(None)
        &&& next.operators() == self.operators()
        &&& next.levels() == self.levels().push(Seq::empty())
        &&& next.authorized() == self.authorized().push(Seq::empty())
        &&& match doi {
            Some(d) => doi_is(next.dois().last(), d),
            None => next.dois().last() is None,
        }
    }

    /// An empty registry.
    pub fn new() -> (r: Registry)
        ensures
            r.wf(),
            r.items().len() == 0,
            r.versions().len() == 0,
            r.dois().len() == 0,
            r.citations().len() == 0,
            r.approvals().len() == 0,
            r.operators().len() == 0,
            r.levels().len() == 0,
            r.authorized().len() == 0,
    {
        Registry {
            items: Vec::new(),
            versions: Vec::new(),
            dois: Vec::new(),
            citations: Vec::new(),
            approvals: Vec::new(),
            operators: Vec::new(),
            levels: Vec::new(),
            authorized: Vec::new(),
        }
    }

    /// Number of records.
    pub fn len(&self) -> (r: u64)
        requires
            self.wf(),
        ensures
            r == self.items().len(),
    {
        self.items.len() as u64
    }

    /// Adds a record and returns its number.
    pub fn create(
        &mut self,
        owner: String,
        ipfs_hash: String,
        price: u128,
        is_public: bool,
        metadata_uri: String,
        doi: Option<String>,
        now: u64,
    ) -> (r: u64)
        requires
            old(self).wf(),
        ensures
            final(self).wf(),
            r == old(self).items().len(),
            old(self).appended(
                *final(self),
                final(self).items().last(),
                match doi {
                    Some(d) => Some(d@),
                    None => None,
                },
                now,
            ),
            new_item(owner@, ipfs_hash@, price, is_public, metadata_uri@, now, final(self).items().last()),
    {
        let id = self.items.len() as u64;
        let version = DataVersion { ipfs_hash: ipfs_hash.clone(), timestamp: now };
        let item = DataItem {
            owner,
            ipfs_hash,
            price,
            is_public,
            total_earned: 0,
            created_at: now,
            last_updated: now,
            metadata_uri,
            is_frozen: false,
        };
        self.items.push(item);
        let mut history: Vec<DataVersion> = Vec::new();
        history.push(version);
        self.versions.push(history);
        self.dois.push(doi);
        self.citations.push(Vec::new());
        self.approvals.push(None);
        self.levels.push(Vec::new());
        self.authorized.push(Vec::new());
        proof {
            assert(self.levels() =~= old(self).levels().push(Seq::empty()));
            assert(self.authorized()[old(self).authorized().len() as int] =~= Seq::<Seq<char>>::empty());
            assert(self.authorized() =~= old(self).authorized().push(Seq::empty()));
            assert forall|i: int| 0 <= i < self.levels().len() implies one_grant_each(#[trigger] self.levels()[i]) by {
                if i < old(self).levels().len() {
                    assert(self.levels()[i] == old(self).levels()[i]);
                }
            }
            assert forall|i: int| 0 <= i < self.authorized().len() implies (#[trigger] self.authorized()[i]).no_duplicates() by {
                if i < old(self).authorized().len() {
                    assert(self.authorized()[i] == old(self).authorized()[i]);
                }
            }
            assert(self.citations() =~= old(self).citations().push(Seq::empty()));
            assert(self.versions().subrange(0, old(self).versions().len() as int) =~= old(self).versions());
            assert(self.dois().subrange(0, old(self).dois().len() as int) =~= old(self).dois());
        }
        id
    }

    /// Records a citation of record `id`.
    pub fn cite(&mut self, id: u64, citation: Citation)
        requires
            old(self).wf(),
            id < old(self).items().len(),
        ensures
            final(self).wf(),
            final(self).items() == old(self).items(),
            final(self).versions() == old(self).versions(),
            final(self).dois() == old(self).dois(),
            final(self).approvals() == old(self).approvals(),
            final(self).operators() == old(self).operators(),
            final(self).levels() == old(self).levels(),
            final(self).authorized() == old(self).authorized(),
            final(self).citations() == old(self).citations().update(
                id as int,
                old(self).citations()[id as int].push(citation),
            ),
    {
        let _ = self.citations.len();
        self.citations[id as usize].push(citation);
        proof {
            assert(self.citations() =~= old(self).citations().update(
                id as int,
                old(self).citations()[id as int].push(citation),
            ));
            assert(self.levels() == old(self).levels());
            assert(self.authorized() == old(self).authorized());
        }
    }

    /// The citations of record `id`; none for an unknown record.
    pub fn citations_of(&self, id: u64) -> (r: Vec<Citation>)
        requires
            self.wf(),
        ensures
            r@ == (if id < self.items().len() { self.citations()[id as int] } else { Seq::empty() }),
    {
        let mut out: Vec<Citation> = Vec::new();
        if id >= self.citations.len() as u64 {
            return out;
        }
        let list = &self.citations[id as usize];
        let mut i: usize = 0;
        while i < list.len()
            invariant
                i <= list@.len(),
                out@ == list@.subrange(0, i as int),
            decreases list@.len() - i,
        {
            out.push(list[i].clone());
            assert(out@ =~= list@.subrange(0, i + 1));
            i = i + 1;
        }
        assert(out@ =~= list@);
        out
    }

    /// Everything but the records' fields and histories is as in `other`.
    pub open spec fn same_rights(&self, other: Registry) -> bool {
        &&& self.dois() == other.dois()
        &&& self.citations() == other.citations()
        &&& self.approvals() == other.approvals()
        &&& self.operators() == other.operators()
        &&& self.levels() == other.levels()
        &&& self.authorized() == other.authorized()
    }

    /// Whether `spender` owns record `id`, is approved for it, or operates
    /// for its owner.
    pub fn check_approved_or_owner(&self, id: u64, spender: &String) -> (r: bool)
        requires
            self.wf(),
            id < self.items().len(),
        ensures
            r == self.approved_or_owner(id as int, spender@),
    {
        let _ = self.items.len();
        let owner = &self.items[id as usize].owner;
        if *owner == *spender {
            return true;
        }
        if let Some(a) = &self.approvals[id as usize] {
            if *a == *spender {
                return true;
            }
        }
        self.has_operator(owner, spender)
    }

    /// Whether `operator` may act on every record of `owner`.
    pub fn has_operator(&self, owner: &String, operator: &String) -> (r: bool)
        ensures
            r == self.is_operator(owner@, operator@),
    {
        let mut k: usize = 0;
        while k < self.operators.len()
            invariant
                k <= self.operators@.len(),
                forall|j: int| 0 <= j < k ==> !((#[trigger] self.operators()[j]).0@ == owner@ && self.operators()[j].1@ == operator@),
            decreases self.operators@.len() - k,
        {
            if self.operators[k].0 == *owner && self.operators[k].1 == *operator {
                assert(self.operators()[k as int].0@ == owner@);
                return true;
            }
            k = k + 1;
        }
        false
    }

    /// Hands record `id` to `new_owner` and clears its approval.
    pub fn transfer(&mut self, id: u64, new_owner: String)
        requires
            old(self).wf(),
            id < old(self).items().len(),
        ensures
            final(self).wf(),
            final(self).items() == old(self).items().update(
                id as int,
                DataItem { owner: new_owner, ..old(self).items()[id as int] },
            ),
            final(self).versions() == old(self).versions(),
            final(self).approvals() == old(self).approvals().update(id as int, None),
            final(self).dois() == old(self).dois(),
            final(self).citations() == old(self).citations(),
            final(self).operators() == old(self).operators(),
            final(self).levels() == old(self).levels(),
            final(self).authorized() == old(self).authorized(),
    {
        let _ = self.items.len();
        self.items[id as usize].owner = new_owner;
        self.approvals.set(id as usize, None);
        proof {
            assert(self.levels() == old(self).levels());
            assert(self.authorized() == old(self).authorized());

            assert(self.items() =~= old(self).items().update(
                id as int,
                DataItem { owner: new_owner, ..old(self).items()[id as int] },
            ));
        }
    }

    /// Approves `spender` to act on record `id`.
    pub fn approve(&mut self, id: u64, spender: String)
        requires
            old(self).wf(),
            id < old(self).items().len(),
        ensures
            final(self).wf(),
            final(self).items() == old(self).items(),
            final(self).versions() == old(self).versions(),
            final(self).approvals() == old(self).approvals().update(id as int, Some(spender)),
            final(self).dois() == old(self).dois(),
            final(self).citations() == old(self).citations(),
            final(self).operators() == old(self).operators(),
            final(self).levels() == old(self).levels(),
            final(self).authorized() == old(self).authorized(),
    {
        let _ = self.items.len();
        self.approvals.set(id as usize, Some(spender));
        proof {
            assert(self.levels() == old(self).levels());
            assert(self.authorized() == old(self).authorized());
        }
    }

    /// Lets `operator` act on every record of `owner`.
    pub fn add_operator(&mut self, owner: String, operator: String)
        requires
            old(self).wf(),
        ensures
            final(self).wf(),
            forall|o: Seq<char>, p: Seq<char>|
                #[trigger] final(self).is_operator(o, p) <==> old(self).is_operator(o, p) || (o == owner@ && p == operator@),
            final(self).items() == old(self).items(),
            final(self).versions() == old(self).versions(),
            final(self).approvals() == old(self).approvals(),
            final(self).dois() == old(self).dois(),
            final(self).citations() == old(self).citations(),
            final(self).levels() == old(self).levels(),
            final(self).authorized() == old(self).authorized(),
    {
        if self.has_operator(&owner, &operator) {
            return;
        }
        let ghost pair = (owner, operator);
        self.operators.push((owner, operator));
        proof {
            assert(self.levels() == old(self).levels());
            assert(self.authorized() == old(self).authorized());

            assert forall|o: Seq<char>, p: Seq<char>|
                #[trigger] self.is_operator(o, p) <==> old(self).is_operator(o, p) || (o == pair.0@ && p == pair.1@) by {
                if old(self).is_operator(o, p) {
                    let k = choose|k: int| 0 <= k < old(self).operators().len() && (#[trigger] old(self).operators()[k]).0@ == o
                        && old(self).operators()[k].1@ == p;
                    assert(self.operators()[k] == old(self).operators()[k]);
                }
                if o == pair.0@ && p == pair.1@ {
                    assert(self.operators()[old(self).operators().len() as int] == pair);
                }
                if self.is_operator(o, p) {
                    let k = choose|k: int| 0 <= k < self.operators().len() && (#[trigger] self.operators()[k]).0@ == o
                        && self.operators()[k].1@ == p;
                    if k < old(self).operators().len() {
                        assert(old(self).operators()[k] == self.operators()[k]);
                    }
                }
            }
        }
    }

    /// Withdraws `operator`'s right to act on the records of `owner`.
    pub fn remove_operator(&mut self, owner: &String, operator: &String)
        requires
            old(self).wf(),
        ensures
            final(self).wf(),
            forall|o: Seq<char>, p: Seq<char>|
                #[trigger] final(self).is_operator(o, p) <==> old(self).is_operator(o, p) && !(o == owner@ && p == operator@),
            final(self).items() == old(self).items(),
            final(self).versions() == old(self).versions(),
            final(self).approvals() == old(self).approvals(),
            final(self).dois() == old(self).dois(),
            final(self).citations() == old(self).citations(),
            final(self).levels() == old(self).levels(),
            final(self).authorized() == old(self).authorized(),
    {
        let mut kept: Vec<(String, String)> = Vec::new();
        let mut k: usize = 0;
        let ghost ops = self.operators();
        while k < self.operators.len()
            invariant
                ops == self.operators(),
                k <= ops.len(),
                forall|j: int| 0 <= j < kept@.len() ==> !((#[trigger] kept@[j]).0@ == owner@ && kept@[j].1@ == operator@),
                forall|j: int| #![trigger kept@[j]] 0 <= j < kept@.len() ==> exists|i: int| 0 <= i < k && #[trigger] ops[i] == kept@[j],
                forall|i: int|
                    0 <= i < k && !((#[trigger] ops[i]).0@ == owner@ && ops[i].1@ == operator@) ==> exists|j: int|
                        0 <= j < kept@.len() && kept@[j] == ops[i],
            decreases ops.len() - k,
        {
            let matches_pair = self.operators[k].0 == *owner && self.operators[k].1 == *operator;
            if !matches_pair {
                let pair = (self.operators[k].0.clone(), self.operators[k].1.clone());
                let ghost before = kept@;
                kept.push(pair);
                proof {
                    assert(kept@[before.len() as int] == ops[k as int]);
                    assert forall|j: int| #![trigger kept@[j]] 0 <= j < kept@.len() implies exists|i: int| 0 <= i < k + 1 && #[trigger] ops[i] == kept@[j] by {
                        if j < before.len() {
                            assert(kept@[j] == before[j]);
                        } else {
                            assert(ops[k as int] == kept@[j]);
                        }
                    }
                    assert forall|i: int| 0 <= i < k + 1 && !((#[trigger] ops[i]).0@ == owner@ && ops[i].1@ == operator@) implies exists|j: int|
                        0 <= j < kept@.len() && kept@[j] == ops[i] by {
                        if i < k {
                            let j = choose|j: int| 0 <= j < before.len() && before[j] == ops[i];
                            assert(kept@[j] == before[j]);
                        } else {
                            assert(kept@[before.len() as int] == ops[i]);
                        }
                    }
                }
            }
            k = k + 1;
        }
        self.operators = kept;
        proof {
            assert(self.levels() == old(self).levels());
            assert(self.authorized() == old(self).authorized());

            assert forall|o: Seq<char>, p: Seq<char>|
                #[trigger] self.is_operator(o, p) <==> old(self).is_operator(o, p) && !(o == owner@ && p == operator@) by {
                if self.is_operator(o, p) {
                    let j = choose|j: int| 0 <= j < self.operators().len() && (#[trigger] self.operators()[j]).0@ == o
                        && self.operators()[j].1@ == p;
                    let i = choose|i: int| 0 <= i < ops.len() && #[trigger] ops[i] == self.operators()[j];
                    assert(ops[i].0@ == o);
                }
                if old(self).is_operator(o, p) && !(o == owner@ && p == operator@) {
                    let i = choose|i: int| 0 <= i < ops.len() && (#[trigger] ops[i]).0@ == o && ops[i].1@ == p;
                    let j = choose|j: int| 0 <= j < self.operators().len() && self.operators()[j] == ops[i];
                    assert(self.operators()[j].0@ == o);
                }
            }
        }
    }

    /// Replaces the content and metadata of record `id` at `now`, and adds
    /// the new content to its history.
    pub fn update_content(&mut self, id: u64, ipfs_hash: String, metadata_uri: String, now: u64)
        requires
            old(self).wf(),
            id < old(self).items().len(),
        ensures
            final(self).wf(),
            final(self).items() == old(self).items().update(
                id as int,
                DataItem { ipfs_hash, metadata_uri, last_updated: now, ..old(self).items()[id as int] },
            ),
            final(self).versions() == old(self).versions().update(
                id as int,
                old(self).versions()[id as int].push(DataVersion { ipfs_hash, timestamp: now }),
            ),
            final(self).same_rights(*old(self)),
    {
        let _ = self.items.len();
        let version = DataVersion { ipfs_hash: ipfs_hash.clone(), timestamp: now };
        self.items[id as usize].ipfs_hash = ipfs_hash;
        self.items[id as usize].metadata_uri = metadata_uri;
        self.items[id as usize].last_updated = now;
        self.versions[id as usize].push(version);
        proof {
            assert(self.levels() == old(self).levels());
            assert(self.authorized() == old(self).authorized());
            assert(self.items() =~= old(self).items().update(
                id as int,
                DataItem { ipfs_hash, metadata_uri, last_updated: now, ..old(self).items()[id as int] },
            ));
            assert(self.versions() =~= old(self).versions().update(
                id as int,
                old(self).versions()[id as int].push(DataVersion { ipfs_hash, timestamp: now }),
            ));
        }
    }

    /// Freezes or thaws record `id`.
    pub fn set_frozen(&mut self, id: u64, freeze: bool)
        requires
            old(self).wf(),
            id < old(self).items().len(),
        ensures
            final(self).wf(),
            final(self).items() == old(self).items().update(
                id as int,
                DataItem { is_frozen: freeze, ..old(self).items()[id as int] },
            ),
            final(self).versions() == old(self).versions(),
            final(self).same_rights(*old(self)),
    {
        let _ = self.items.len();
        self.items[id as usize].is_frozen = freeze;
        proof {
            assert(self.levels() == old(self).levels());
            assert(self.authorized() == old(self).authorized());
            assert(self.items() =~= old(self).items().update(
                id as int,
                DataItem { is_frozen: freeze, ..old(self).items()[id as int] },
            ));
        }
    }

    /// Adds `amount` to the earnings of record `id`.
    pub fn add_earnings(&mut self, id: u64, amount: u128)
        requires
            old(self).wf(),
            id < old(self).items().len(),
            old(self).items()[id as int].total_earned + amount <= u128::MAX,
        ensures
            final(self).wf(),
            final(self).items() == old(self).items().update(
                id as int,
                DataItem {
                    total_earned: (old(self).items()[id as int].total_earned + amount) as u128,
                    ..old(self).items()[id as int]
                },
            ),
            final(self).versions() == old(self).versions(),
            final(self).same_rights(*old(self)),
    {
        let _ = self.items.len();
        let earned = self.items[id as usize].total_earned + amount;
        self.items[id as usize].total_earned = earned;
        proof {
            assert(self.levels() == old(self).levels());
            assert(self.authorized() == old(self).authorized());
            assert(self.items() =~= old(self).items().update(
                id as int,
                DataItem {
                    total_earned: (old(self).items()[id as int].total_earned + amount) as u128,
                    ..old(self).items()[id as int]
                },
            ));
        }
    }

    /// The level of access that `user` holds to record `id`.
    pub fn level_of(&self, id: u64, user: &String) -> (r: AccessLevel)
        requires
            self.wf(),
            id < self.items().len(),
        ensures
            r == self.access_level(id as int, user@),
    {
        let _ = self.levels.len();
        let g = &self.levels[id as usize];
        match find_grant(g, user) {
            Some(j) => {
                proof {
                    let gs = self.levels()[id as int];
                    assert(gs == g@);
                    assert(one_grant_each(gs));
                    let k = choose|k: int| 0 <= k < gs.len() && (#[trigger] gs[k]).0@ == user@;
                    assert(k == j as int);
                }
                g[j].1
            },
            None => AccessLevel::NoAccess,
        }
    }

    /// The users holding some access to record `id`; nobody for an unknown
    /// record.
    pub fn authorized_users(&self, id: u64) -> (r: Vec<String>)
        requires
            self.wf(),
        ensures
            r@.map_values(|a: String| a@) == (if id < self.items().len() {
                self.authorized()[id as int]
            } else {
                Seq::empty()
            }),
    {
        let mut out: Vec<String> = Vec::new();
        if id >= self.authorized.len() as u64 {
            assert(out@.map_values(|a: String| a@) =~= Seq::<Seq<char>>::empty());
            return out;
        }
        let list = &self.authorized[id as usize];
        let mut i: usize = 0;
        while i < list.len()
            invariant
                i <= list@.len(),
                out@.len() == i,
                forall|k: int| 0 <= k < i ==> #[trigger] out@[k]@ == list@[k]@,
            decreases list@.len() - i,
        {
            out.push(list[i].clone());
            i = i + 1;
        }
        assert(out@.map_values(|a: String| a@) =~= self.authorized()[id as int]);
        out
    }

    /// Gives `user` access `level` to record `id`: the user is listed as
    /// authorized exactly when the level is not `NoAccess`.
    pub fn grant(&mut self, id: u64, user: String, level: AccessLevel)
        requires
            old(self).wf(),
            id < old(self).items().len(),
        ensures
            final(self).wf(),
            final(self).items() == old(self).items(),
            final(self).versions() == old(self).versions(),
            final(self).dois() == old(self).dois(),
            final(self).citations() == old(self).citations(),
            final(self).approvals() == old(self).approvals(),
            final(self).operators() == old(self).operators(),
            forall|u: Seq<char>|
                #[trigger] final(self).access_level(id as int, u) == if u == user@ {
                    level
                } else {
                    old(self).access_level(id as int, u)
                },
            forall|u: Seq<char>|
                #[trigger] final(self).authorized()[id as int].contains(u) == if u == user@ {
                    level != AccessLevel::NoAccess
                } else {
                    old(self).authorized()[id as int].contains(u)
                },
            forall|k: int|
                0 <= k < old(self).items().len() && k != id ==> #[trigger] final(self).levels()[k] == old(
                    self,
                ).levels()[k] && final(self).authorized()[k] == old(self).authorized()[k],
    {
        let _ = self.levels.len();
        let idx = id as usize;
        let ghost g0 = self.levels()[id as int];
        let ghost a0 = self.authorized()[id as int];
        let found = find_grant(&self.levels[idx], &user);
        let entry = (user.clone(), level);
        match found {
            Some(j) => {
                self.levels[idx].set(j, entry);
            },
            None => {
                self.levels[idx].push(entry);
            },
        }
        let ghost g1 = self.levels@[id as int]@;
        proof {
            lemma_grant_updates(g0, user@, level, found, g1);
        }
        let listed = find_name(&self.authorized[idx], &user);
        if level != AccessLevel::NoAccess {
            if listed.is_none() {
                self.authorized[idx].push(user);
                proof {
                    assert(self.authorized@[id as int]@.map_values(|a: String| a@) =~= a0.push(user@));
                }
            }
        } else {
            match listed {
                Some(j) => {
                    self.authorized[idx].remove(j);
                    proof {
                        assert(self.authorized@[id as int]@.map_values(|a: String| a@) =~= a0.remove(j as int));
                    }
                },
                None => {},
            }
        }
        proof {
            let a1 = self.authorized@[id as int]@.map_values(|a: String| a@);
            assert(self.authorized()[id as int] == a1);
            lemma_listing_updates(a0, user@, level != AccessLevel::NoAccess, listed, a1);
            assert(self.levels()[id as int] == g1);
            assert forall|k: int| 0 <= k < self.levels().len() implies one_grant_each(#[trigger] self.levels()[k]) by {
                if k != id {
                    assert(self.levels()[k] == old(self).levels()[k]);
                }
            }
            assert forall|k: int| 0 <= k < self.authorized().len() implies (#[trigger] self.authorized()[k]).no_duplicates() by {
                if k != id {
                    assert(self.authorized()[k] == old(self).authorized()[k]);
                }
            }
        }
    }

    /// Whether some paper already carries `doi`.
    pub fn has_doi(&self, doi: &String) -> (r: bool)
        requires
            self.wf(),
        ensures
            r == self.doi_taken(doi@),
    {
        let mut i: usize = 0;
        while i < self.dois.len()
            invariant
                i <= self.dois@.len(),
                forall|j: int| 0 <= j < i ==> !doi_is(#[trigger] self.dois()[j], doi@),
            decreases self.dois@.len() - i,
        {
            if let Some(d) = &self.dois[i] {
                if *d == *doi {
                    assert(doi_is(self.dois()[i as int], doi@));
                    return true;
                }
            }
            assert(!doi_is(self.dois()[i as int], doi@));
            i = i + 1;
        }
        false
    }

    /// The record numbered `id`, if there is one.
    pub fn item(&self, id: u64) -> (r: Option<&DataItem>)
        requires
            self.wf(),
        ensures
            r == (if id < self.items().len() { Some(&self.items()[id as int]) } else { None::<&DataItem> }),
    {
        if id < self.items.len() as u64 {
            Some(&self.items[id as usize])
        } else {
            None
        }
    }

    /// The content history of record `id`, if there is one.
    pub fn history(&self, id: u64) -> (r: Option<&Vec<DataVersion>>)
        requires
            self.wf(),
        ensures
            r is Some <==> id < self.items().len(),
            r matches Some(v) ==> v@ == self.versions()[id as int],
    {
        if id < self.versions.len() as u64 {
            Some(&self.versions[id as usize])
        } else {
            None
        }
    }

    /// The DOI of record `id`, if it is a paper.
    pub fn doi(&self, id: u64) -> (r: Option<&String>)
        requires
            self.wf(),
        ensures
            r == (if id < self.items().len() {
                match self.dois()[id as int] {
                    Some(d) => Some(&d),
                    None => None::<&String>,
                }
            } else {
                None::<&String>
            }),
    {
        if id < self.dois.len() as u64 {
            match &self.dois[id as usize] {
                Some(d) => Some(d),
                None => None,
            }
        } else {
            None
        }
    }
}

/// Where `user` stands in the grant list, if anywhere.
fn find_grant(g: &Vec<(String, AccessLevel)>, user: &String) -> (r: Option<usize>)
    ensures
        r is Some <==> grants_to(g@, user@),
        r matches Some(j) ==> j < g@.len() && g@[j as int].0@ == user@,
{
    let mut i: usize = 0;
    while i < g.len()
        invariant
            i <= g@.len(),
            forall|k: int| 0 <= k < i ==> (#[trigger] g@[k]).0@ != user@,
        decreases g@.len() - i,
    {
        if g[i].0 == *user {
            return Some(i);
        }
        i = i + 1;
    }
    None
}

/// Where `name` stands in the list, if anywhere.
fn find_name(list: &Vec<String>, name: &String) -> (r: Option<usize>)
    ensures
        r is Some <==> list@.map_values(|a: String| a@).contains(name@),
        r matches Some(j) ==> j < list@.len() && list@[j as int]@ == name@,
{
    let mut i: usize = 0;
    while i < list.len()
        invariant
            i <= list@.len(),
            forall|k: int| 0 <= k < i ==> (#[trigger] list@[k])@ != name@,
        decreases list@.len() - i,
    {
        if list[i] == *name {
            assert(list@.map_values(|a: String| a@)[i as int] == name@);
            return Some(i);
        }
        i = i + 1;
    }
    let ghost views = list@.map_values(|a: String| a@);
    assert(!views.contains(name@)) by {
        if views.contains(name@) {
            let k = choose|k: int| 0 <= k < views.len() && views[k] == name@;
            assert(list@[k]@ == name@);
        }
    }
    None
}

proof fn lemma_grant_updates(
    g0: Seq<(String, AccessLevel)>,
    user: Seq<char>,
    level: AccessLevel,
    found: Option<usize>,
    g1: Seq<(String, AccessLevel)>,
)
    requires
        one_grant_each(g0),
        found is Some <==> grants_to(g0, user),
        found matches Some(j) ==> j < g0.len() && g0[j as int].0@ == user && g1 == g0.update(
            j as int,
            (g1[j as int].0, level),
        ) && g1[j as int].0@ == user,
        found is None ==> g1 == g0.push((g1[g0.len() as int].0, level)) && g1[g0.len() as int].0@ == user,
    ensures
        one_grant_each(g1),
        forall|u: Seq<char>| #[trigger] level_in(g1, u) == if u == user { level } else { level_in(g0, u) },
{
    assert forall|a: int, b: int| 0 <= a < g1.len() && 0 <= b < g1.len() && a != b implies (#[trigger] g1[a]).0@
        != (#[trigger] g1[b]).0@ by {
        match found {
            Some(j) => {
                if a == j as int {
                    assert(g0[b].0@ != g0[a].0@);
                } else if b == j as int {
                    assert(g0[a].0@ != g0[b].0@);
                } else {
                    assert(g0[a].0@ != g0[b].0@);
                }
            },
            None => {
                if a < g0.len() && b < g0.len() {
                    assert(g0[a].0@ != g0[b].0@);
                } else if a < g0.len() {
                    assert(g0[a].0@ != user);
                } else {
                    assert(g0[b].0@ != user);
                }
            },
        }
    }
    assert forall|u: Seq<char>| #[trigger] level_in(g1, u) == if u == user { level } else { level_in(g0, u) } by {
        let pos = match found {
            Some(j) => j as int,
            None => g0.len() as int,
        };
        assert(g1[pos].0@ == user && g1[pos].1 == level);
        if u == user {
            assert(grants_to(g1, u));
            let k = choose|k: int| 0 <= k < g1.len() && (#[trigger] g1[k]).0@ == u;
            assert(k == pos);
        } else {
            if grants_to(g0, u) {
                let k0 = choose|k: int| 0 <= k < g0.len() && (#[trigger] g0[k]).0@ == u;
                assert(k0 != pos);
                assert(g1[k0] == g0[k0]);
                assert(grants_to(g1, u));
                let k1 = choose|k: int| 0 <= k < g1.len() && (#[trigger] g1[k]).0@ == u;
                assert(k1 != pos);
                assert(g1[k1] == g0[k1]);
                assert(k1 == k0);
            } else {
                if grants_to(g1, u) {
                    let k1 = choose|k: int| 0 <= k < g1.len() && (#[trigger] g1[k]).0@ == u;
                    assert(k1 != pos);
                    assert(g0[k1] == g1[k1]);
                }
            }
        }
    }
}

proof fn lemma_listing_updates(
    a0: Seq<Seq<char>>,
    user: Seq<char>,
    listed_after: bool,
    listed: Option<usize>,
    a1: Seq<Seq<char>>,
)
    requires
        a0.no_duplicates(),
        listed is Some <==> a0.contains(user),
        listed matches Some(j) ==> j < a0.len() && a0[j as int] == user,
        listed_after && listed is None ==> a1 == a0.push(user),
        listed_after && listed is Some ==> a1 == a0,
        !listed_after && listed is None ==> a1 == a0,
        listed matches Some(j) ==> (!listed_after ==> a1 == a0.remove(j as int)),
    ensures
        a1.no_duplicates(),
        forall|u: Seq<char>| #[trigger] a1.contains(u) == if u == user { listed_after } else { a0.contains(u) },
{
    if listed_after && listed is None {
        assert forall|u: Seq<char>| #[trigger] a1.contains(u) == if u == user { listed_after } else { a0.contains(u) } by {
            if u == user {
                assert(a1[a0.len() as int] == user);
            } else if a0.contains(u) {
                let k = choose|k: int| 0 <= k < a0.len() && a0[k] == u;
                assert(a1[k] == u);
            } else if a1.contains(u) {
                let k = choose|k: int| 0 <= k < a1.len() && a1[k] == u;
                assert(k < a0.len());
                assert(a0[k] == u);
            }
        }
    } else if !listed_after && listed is Some {
        let j = listed->Some_0 as int;
        assert forall|x: int, y: int| 0 <= x < a1.len() && 0 <= y < a1.len() && x != y implies a1[x] != a1[y] by {
            let ox = if x < j { x } else { x + 1 };
            let oy = if y < j { y } else { y + 1 };
            assert(a1[x] == a0[ox]);
            assert(a1[y] == a0[oy]);
        }
        assert forall|u: Seq<char>| #[trigger] a1.contains(u) == if u == user { listed_after } else { a0.contains(u) } by {
            if a1.contains(u) {
                let k = choose|k: int| 0 <= k < a1.len() && a1[k] == u;
                let ok = if k < j { k } else { k + 1 };
                assert(a0[ok] == u);
                assert(ok != j);
            }
            if a0.contains(u) && u != user {
                let k = choose|k: int| 0 <= k < a0.len() && a0[k] == u;
                assert(k != j);
                let nk = if k < j { k } else { k - 1 };
                assert(a1[nk] == u);
            }
        }
    }
}

} // verus!
