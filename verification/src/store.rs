//! The strategy store: at most one strategy for each owner.

use vstd::prelude::*;
use crate::address::Address;
use crate::strategy::{Strategy, StrategyView};

verus! {

/// The strategies on record, found by their owner.
///
/// The view of a store is the map from each owner on record to that owner's
/// strategy.
#[derive(Debug)]
pub struct StrategyStore {
    entries: Vec<Strategy>,
}

/// Whether `entries[i]` is the strategy of `user`.
spec fn held_at(entries: Seq<Strategy>, user: Seq<char>, i: int) -> bool {
    0 <= i < entries.len() && entries[i].user@ == user
}

/// Whether no owner has two strategies among `entries`.
spec fn one_per_owner(entries: Seq<Strategy>) -> bool {
    forall|i: int, j: int|
        0 <= i < entries.len() && 0 <= j < entries.len() && #[trigger] entries[i].user@
            == #[trigger] entries[j].user@ ==> i == j
}

/// The map from owners to strategies that `entries` stands for.
spec fn as_map(entries: Seq<Strategy>) -> Map<Seq<char>, StrategyView> {
    Map::new(
        |user: Seq<char>| exists|i: int| held_at(entries, user, i),
        |user: Seq<char>| entries[choose|i: int| held_at(entries, user, i)]@,
    )
}

/// Where every owner has one strategy at most, the strategy at `i` is the
/// one that the map gives for its owner.
proof fn lemma_as_map_at(entries: Seq<Strategy>, i: int)
    requires
        one_per_owner(entries),
        0 <= i < entries.len(),
    ensures
        as_map(entries).contains_key(entries[i].user@),
        as_map(entries)[entries[i].user@] == entries[i]@,
{
    let user = entries[i].user@;
    assert(held_at(entries, user, i));
    let j = choose|j: int| held_at(entries, user, j);
    assert(held_at(entries, user, j));
    assert(i == j);
}

impl View for StrategyStore {
    type V = Map<Seq<char>, StrategyView>;

    closed spec fn view(&self) -> Map<Seq<char>, StrategyView> {
        as_map(self.entries@)
    }
}

impl Clone for StrategyStore {
    fn clone(&self) -> (r: Self)
        ensures
            r@ == self@,
            self.wf() ==> r.wf(),
    {
        let mut entries: Vec<Strategy> = Vec::new();
        let mut i: usize = 0;
        while i < self.entries.len()
            invariant
                i <= self.entries.len(),
                entries@ == self.entries@.subrange(0, i as int),
            decreases self.entries.len() - i,
        {
            entries.push(self.entries[i].clone());
            i += 1;
        }
        assert(entries@ == self.entries@);
        StrategyStore { entries }
    }
}

impl StrategyStore {
    /// Whether the store is in order: no owner has two strategies.
    /// Every store that this crate hands out is.
    pub closed spec fn wf(&self) -> bool {
        one_per_owner(self.entries@)
    }

    /// Every strategy on record is filed under its own owner.
    pub proof fn lemma_filed_by_owner(&self)
        ensures
            forall|user: Seq<char>| #[trigger]
                self@.contains_key(user) ==> self@[user].user == user,
    {
        assert forall|user: Seq<char>| #[trigger] self@.contains_key(user) implies self@[user].user
            == user by {
            let i = choose|i: int| held_at(self.entries@, user, i);
            assert(held_at(self.entries@, user, i));
        }
    }

    /// A store with nothing on record.
    pub fn new() -> (r: StrategyStore)
        ensures
            r.wf(),
            r@ == Map::<Seq<char>, StrategyView>::empty(),
    {
        let r = StrategyStore { entries: Vec::new() };
        assert(r@ =~= Map::<Seq<char>, StrategyView>::empty());
        r
    }

    /// The place of the strategy of `user`, if `user` has one.
    fn find(&self, user: &Address) -> (r: Option<usize>)
        ensures
            match r {
                Some(i) => held_at(self.entries@, user@, i as int),
                None => forall|i: int| !held_at(self.entries@, user@, i),
            },
    {
        let mut i: usize = 0;
        while i < self.entries.len()
            invariant
                i <= self.entries.len(),
                forall|j: int| 0 <= j < i ==> !held_at(self.entries@, user@, j),
            decreases self.entries.len() - i,
        {
            if self.entries[i].user == *user {
                return Some(i);
            }
            i += 1;
        }
        None
    }

    /// Whether `user` has a strategy on record.
    pub fn has(&self, user: &Address) -> (r: bool)
        ensures
            r == self@.contains_key(user@),
    {
        self.find(user).is_some()
    }

    /// The strategy of `user`, if `user` has one.
    pub fn get(&self, user: &Address) -> (r: Option<Strategy>)
        requires
            self.wf(),
        ensures
            r is Some <==> self@.contains_key(user@),
            r matches Some(s) ==> s@ == self@[user@],
    {
        match self.find(user) {
            Some(i) => {
                proof {
                    lemma_as_map_at(self.entries@, i as int);
                }
                Some(self.entries[i].clone())
            },
            None => None,
        }
    }

    /// Puts `strategy` on record for its owner, in place of the strategy
    /// that the owner had, if any. No other owner's strategy changes.
    pub fn set(&mut self, strategy: Strategy)
        requires
            old(self).wf(),
        ensures
            final(self).wf(),
            final(self)@ == old(self)@.insert(strategy.user@, strategy@),
    {
        let ghost before = self.entries@;
        let ghost user = strategy.user@;
        let ghost value = strategy@;
        let found = self.find(&strategy.user);
        let ghost at: int = match found {
            Some(i) => i as int,
            None => before.len() as int,
        };
        match found {
            Some(i) => {
                self.entries.set(i, strategy);
            },
            None => {
                self.entries.push(strategy);
            },
        }
        proof {
            let after = self.entries@;
            assert(held_at(after, user, at) && after[at]@ == value);
            assert forall|j: int| 0 <= j < after.len() && j != at implies after[j] == before[j]
                && !held_at(before, user, j) by {
                if found is Some {
                    assert(held_at(before, user, at));
                }
            }
            assert forall|a: int, b: int|
                0 <= a < after.len() && 0 <= b < after.len() && #[trigger] after[a].user@
                    == #[trigger] after[b].user@ implies a == b by {
                if a != at && b != at {
                    assert(before[a].user@ == before[b].user@);
                }
            }
            assert forall|q: Seq<char>| as_map(after).contains_key(q) <==> as_map(before).insert(
                user,
                value,
            ).contains_key(q) by {
                if as_map(after).contains_key(q) && q != user {
                    let j = choose|j: int| held_at(after, q, j);
                    assert(held_at(before, q, j));
                }
                if as_map(before).contains_key(q) && q != user {
                    let j = choose|j: int| held_at(before, q, j);
                    assert(held_at(after, q, j));
                }
            }
            assert forall|q: Seq<char>| as_map(after).contains_key(q) implies as_map(after)[q]
                == as_map(before).insert(user, value)[q] by {
                let j = choose|j: int| held_at(after, q, j);
                lemma_as_map_at(after, j);
                if q != user {
                    assert(held_at(before, q, j));
                    lemma_as_map_at(before, j);
                }
            }
            assert(as_map(after) =~= as_map(before).insert(user, value));
        }
    }
}

} // verus!
