//! The sum of the amounts held in a map, and how it moves when one entry
//! is written.

use vstd::prelude::*;
use crate::account::Balance;

verus! {

/// The amount stored under `key`, an absent entry counting as zero.
pub open spec fn amount_at<K>(m: Map<K, Balance>, key: K) -> Balance {
    if m.dom().contains(key) {
        m[key]
    } else {
        0
    }
}

/// The sum of all amounts stored in `m`.
pub open spec fn total_of<K>(m: Map<K, Balance>) -> nat {
    m.dom().fold(0nat, |acc: nat, key: K| (acc + m[key]) as nat)
}

proof fn lemma_fold_agrees<K>(s: Set<K>, f: spec_fn(nat, K) -> nat, g: spec_fn(nat, K) -> nat)
    requires
        s.finite(),
        vstd::set::fold::is_fun_commutative(f),
        vstd::set::fold::is_fun_commutative(g),
        forall|acc: nat, key: K| s.contains(key) ==> #[trigger] f(acc, key) == g(acc, key),
    ensures
        s.fold(0nat, f) == s.fold(0nat, g),
    decreases s.len(),
{
    if s.len() == 0 {
        assert(s =~= Set::empty());
        vstd::set::fold::lemma_fold_empty(0nat, f);
        vstd::set::fold::lemma_fold_empty(0nat, g);
    } else {
        let key = s.choose();
        let rest = s.remove(key);
        assert(s =~= rest.insert(key));
        lemma_fold_agrees(rest, f, g);
        vstd::set::fold::lemma_fold_insert(rest, 0nat, f, key);
        vstd::set::fold::lemma_fold_insert(rest, 0nat, g, key);
    }
}

/// Nothing is stored in the empty map.
pub proof fn lemma_total_empty<K>()
    ensures
        total_of(Map::<K, Balance>::empty()) == 0,
{
    let m = Map::<K, Balance>::empty();
    assert(m.dom() =~= Set::empty());
    vstd::set::fold::lemma_fold_empty(0nat, |acc: nat, key: K| (acc + m[key]) as nat);
}

/// Writing `value` under `key` moves the sum by the difference between
/// `value` and what was stored there before.
pub proof fn lemma_total_insert<K>(m: Map<K, Balance>, key: K, value: Balance)
    requires
        m.dom().finite(),
    ensures
        total_of(m.insert(key, value)) == total_of(m) - amount_at(m, key) + value,
        amount_at(m, key) <= total_of(m),
{
    let after = m.insert(key, value);
    let f = |acc: nat, k: K| (acc + m[k]) as nat;
    let g = |acc: nat, k: K| (acc + after[k]) as nat;
    let rest = m.dom().remove(key);
    assert(vstd::set::fold::is_fun_commutative(f));
    assert(vstd::set::fold::is_fun_commutative(g));
    lemma_fold_agrees(rest, f, g);
    assert(after.dom() =~= rest.insert(key));
    vstd::set::fold::lemma_fold_insert(rest, 0nat, g, key);
    if m.dom().contains(key) {
        assert(m.dom() =~= rest.insert(key));
        vstd::set::fold::lemma_fold_insert(rest, 0nat, f, key);
    } else {
        assert(m.dom() =~= rest);
    }
}

} // verus!
