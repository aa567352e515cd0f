//! An association table from keys to amounts, the storage behind the
//! balances and the allowances.

use vstd::prelude::*;
use vstd::std_specs::cmp::PartialEqSpec;
use crate::account::Balance;
use crate::supply::lemma_total_empty;
use crate::supply::lemma_total_insert;
use crate::supply::total_of;

verus! {

/// Whether `==` on `K` decides equality of values.
pub open spec fn eq_decides<K: PartialEq + PartialEqSpec>() -> bool {
    &&& K::obeys_eq_spec()
    &&& forall|a: K, b: K| #[trigger] a.eq_spec(&b) <==> a == b
}

/// Whether no key occurs twice in `entries`.
pub open spec fn keys_distinct<K>(entries: Seq<(K, Balance)>) -> bool {
    forall|i: int, j: int| 0 <= i < j < entries.len() ==> entries[i].0 != entries[j].0
}

/// The map that `entries` spell out, a later entry overriding an earlier one
/// with the same key.
pub open spec fn map_of<K>(entries: Seq<(K, Balance)>) -> Map<K, Balance>
    decreases entries.len(),
{
    if entries.len() == 0 {
        Map::empty()
    } else {
        map_of(entries.drop_last()).insert(entries.last().0, entries.last().1)
    }
}

/// The map of a list of entries has a finite domain, and holds exactly the
/// keys that occur in the list.
pub proof fn lemma_map_of_domain<K>(entries: Seq<(K, Balance)>)
    ensures
        map_of(entries).dom().finite(),
        forall|key: K|
            map_of(entries).dom().contains(key) <==> exists|i: int|
                0 <= i < entries.len() && #[trigger] entries[i].0 == key,
    decreases entries.len(),
{
    if entries.len() > 0 {
        let front = entries.drop_last();
        lemma_map_of_domain(front);
        assert forall|key: K|
            map_of(entries).dom().contains(key) <==> exists|i: int|
                0 <= i < entries.len() && #[trigger] entries[i].0 == key by {
            if map_of(entries).dom().contains(key) {
                if key == entries.last().0 {
                    assert(entries[entries.len() - 1].0 == key);
                } else {
                    let i = choose|i: int| 0 <= i < front.len() && #[trigger] front[i].0 == key;
                    assert(entries[i].0 == key);
                }
            }
            if exists|i: int| 0 <= i < entries.len() && #[trigger] entries[i].0 == key {
                let i = choose|i: int| 0 <= i < entries.len() && #[trigger] entries[i].0 == key;
                if i < front.len() {
                    assert(front[i].0 == key);
                }
            }
        }
    }
}

/// With distinct keys, each entry of the list is what the map holds under
/// its key.
pub proof fn lemma_map_of_entry<K>(entries: Seq<(K, Balance)>, i: int)
    requires
        keys_distinct(entries),
        0 <= i < entries.len(),
    ensures
        map_of(entries).dom().contains(entries[i].0),
        map_of(entries)[entries[i].0] == entries[i].1,
    decreases entries.len(),
{
    if i < entries.len() - 1 {
        let front = entries.drop_last();
        assert(front[i] == entries[i]);
        lemma_map_of_entry(front, i);
    }
}

/// Replacing the amount of one entry writes that amount under its key.
pub proof fn lemma_map_of_update<K>(entries: Seq<(K, Balance)>, i: int, value: Balance)
    requires
        keys_distinct(entries),
        0 <= i < entries.len(),
    ensures
        keys_distinct(entries.update(i, (entries[i].0, value))),
        map_of(entries.update(i, (entries[i].0, value))) == map_of(entries).insert(
            entries[i].0,
            value,
        ),
    decreases entries.len(),
{
    let key = entries[i].0;
    let updated = entries.update(i, (key, value));
    let front = entries.drop_last();
    if i == entries.len() - 1 {
        assert(updated.drop_last() =~= front);
        assert(map_of(updated) =~= map_of(entries).insert(key, value));
    } else {
        assert(front[i] == entries[i]);
        lemma_map_of_update(front, i, value);
        assert(updated.drop_last() =~= front.update(i, (key, value)));
        assert(updated.last() == entries.last());
        assert(entries[entries.len() - 1].0 != key);
        assert(map_of(updated) =~= map_of(entries).insert(key, value));
    }
}

/// The sum of the amounts in `entries`.
pub open spec fn listed_total<K>(entries: Seq<(K, Balance)>) -> nat
    decreases entries.len(),
{
    if entries.len() == 0 {
        0
    } else {
        (listed_total(entries.drop_last()) + entries.last().1) as nat
    }
}

/// With distinct keys, the amounts of the list add up to the amounts of its
/// map.
pub proof fn lemma_listed_total<K>(entries: Seq<(K, Balance)>)
    requires
        keys_distinct(entries),
    ensures
        total_of(map_of(entries)) == listed_total(entries),
    decreases entries.len(),
{
    if entries.len() == 0 {
        lemma_total_empty::<K>();
    } else {
        let front = entries.drop_last();
        lemma_listed_total(front);
        lemma_map_of_domain(front);
        assert(!map_of(front).dom().contains(entries.last().0)) by {
            if map_of(front).dom().contains(entries.last().0) {
                let i = choose|i: int|
                    0 <= i < front.len() && #[trigger] front[i].0 == entries.last().0;
                assert(entries[i].0 == entries[entries.len() - 1].0);
            }
        }
        lemma_total_insert(map_of(front), entries.last().0, entries.last().1);
    }
}

/// The amounts of the first `n` entries add up to no more than the amounts
/// of all of them.
pub proof fn lemma_listed_total_grows<K>(entries: Seq<(K, Balance)>, n: int)
    requires
        0 <= n <= entries.len(),
    ensures
        listed_total(entries.take(n)) <= listed_total(entries),
    decreases entries.len(),
{
    if n == entries.len() {
        assert(entries.take(n) =~= entries);
    } else {
        let front = entries.drop_last();
        assert(front.take(n) =~= entries.take(n));
        lemma_listed_total_grows(front, n);
    }
}

/// A table from keys to amounts, with at most one entry for each key.
pub(crate) struct Store<K> {
    entries: Vec<(K, Balance)>,
}

impl<K: PartialEq + PartialEqSpec + Copy> Store<K> {
    /// No key is stored twice, and `==` on keys decides equality.
    pub(crate) closed spec fn wf(&self) -> bool {
        &&& keys_distinct(self.entries@)
        &&& eq_decides::<K>()
    }

    /// What the table holds.
    pub(crate) closed spec fn view(&self) -> Map<K, Balance> {
        map_of(self.entries@)
    }

    /// The entries of the table, in the order in which their keys were first
    /// written.
    pub(crate) closed spec fn listing(&self) -> Seq<(K, Balance)> {
        self.entries@
    }

    /// The table's map is the map of its listing, which names no key twice.
    pub(crate) proof fn lemma_listing(&self)
        requires
            self.wf(),
        ensures
            keys_distinct(self.listing()),
            self@ == map_of(self.listing()),
            self@.dom().finite(),
    {
        lemma_map_of_domain(self.entries@);
    }

    /// The empty table.
    pub(crate) fn new() -> (store: Self)
        requires
            eq_decides::<K>(),
        ensures
            store.wf(),
            store@ == Map::<K, Balance>::empty(),
    {
        Store { entries: Vec::new() }
    }

    fn position(&self, key: &K) -> (found: Option<usize>)
        requires
            self.wf(),
        ensures
            match found {
                Some(i) => i < self.entries@.len() && self.entries@[i as int].0 == *key,
                None => forall|i: int| 0 <= i < self.entries@.len() ==> self.entries@[i].0 != *key,
            },
    {
        let mut i: usize = 0;
        while i < self.entries.len()
            invariant
                i <= self.entries@.len(),
                eq_decides::<K>(),
                forall|j: int| 0 <= j < i ==> self.entries@[j].0 != *key,
            decreases self.entries@.len() - i,
        {
            if self.entries[i].0 == *key {
                return Some(i);
            }
            i += 1;
        }
        None
    }

    /// The amount stored under `key`, if any.
    pub(crate) fn get(&self, key: &K) -> (found: Option<Balance>)
        requires
            self.wf(),
        ensures
            found == (if self@.dom().contains(*key) {
                Some(self@[*key])
            } else {
                None
            }),
    {
        proof {
            lemma_map_of_domain(self.entries@);
        }
        match self.position(key) {
            Some(i) => {
                proof {
                    lemma_map_of_entry(self.entries@, i as int);
                }
                Some(self.entries[i].1)
            },
            None => None,
        }
    }

    /// Writes `value` under `key`, replacing what was stored there.
    pub(crate) fn set(&mut self, key: K, value: Balance)
        requires
            old(self).wf(),
        ensures
            final(self).wf(),
            final(self)@ == old(self)@.insert(key, value),
    {
        match self.position(&key) {
            Some(i) => {
                proof {
                    lemma_map_of_update(self.entries@, i as int, value);
                }
                self.entries.set(i, (key, value));
            },
            None => {
                self.entries.push((key, value));
                assert(self.entries@.drop_last() =~= old(self).entries@);
            },
        }
    }

    /// The table that `entries` spell out, a later entry overriding an
    /// earlier one with the same key.
    pub(crate) fn from_listing(entries: &Vec<(K, Balance)>) -> (store: Self)
        requires
            eq_decides::<K>(),
        ensures
            store.wf(),
            store@ == map_of(entries@),
    {
        let mut store: Store<K> = Store::new();
        let mut i: usize = 0;
        while i < entries.len()
            invariant
                i <= entries@.len(),
                store.wf(),
                store@ == map_of(entries@.take(i as int)),
            decreases entries@.len() - i,
        {
            let entry = entries[i];
            store.set(entry.0, entry.1);
            proof {
                assert(entries@.take(i + 1).drop_last() =~= entries@.take(i as int));
            }
            i += 1;
        }
        proof {
            assert(entries@.take(i as int) =~= entries@);
        }
        store
    }

    /// The entries of the table.
    pub(crate) fn to_listing(&self) -> (entries: Vec<(K, Balance)>)
        ensures
            entries@ == self.listing(),
    {
        let mut entries: Vec<(K, Balance)> = Vec::new();
        let mut i: usize = 0;
        while i < self.entries.len()
            invariant
                i <= self.entries@.len(),
                entries@ == self.entries@.take(i as int),
            decreases self.entries@.len() - i,
        {
            entries.push(self.entries[i]);
            proof {
                assert(entries@ =~= self.entries@.take(i + 1));
            }
            i += 1;
        }
        proof {
            assert(self.entries@.take(i as int) =~= self.entries@);
        }
        entries
    }

    /// Whether the amounts in the table add up to no more than `limit`.
    pub(crate) fn total_within(&self, limit: Balance) -> (within: bool)
        requires
            self.wf(),
        ensures
            within == (total_of(self@) <= limit),
    {
        proof {
            lemma_listed_total(self.entries@);
        }
        let mut sum: Balance = 0;
        let mut i: usize = 0;
        while i < self.entries.len()
            invariant
                i <= self.entries@.len(),
                sum == listed_total(self.entries@.take(i as int)),
                sum <= limit,
                total_of(self@) == listed_total(self.entries@),
            decreases self.entries@.len() - i,
        {
            let amount = self.entries[i].1;
            proof {
                assert(self.entries@.take(i + 1).drop_last() =~= self.entries@.take(i as int));
                lemma_listed_total_grows(self.entries@, i + 1);
            }
            if amount > limit - sum {
                return false;
            }
            sum = sum + amount;
            i += 1;
        }
        proof {
            assert(self.entries@.take(i as int) =~= self.entries@);
        }
        true
    }
}

} // verus!
