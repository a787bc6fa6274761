//! Association sequences read as mathematical maps.
//!
//! The ledger stores each of its tables as a vector of key/value pairs whose
//! keys are pairwise distinct.  The spec functions here give such a sequence
//! its meaning as a `Map`, and the lemmas relate the three ways a table
//! changes — a value overwritten in place, a fresh pair appended — to
//! `Map::insert`.

use vstd::prelude::*;

verus! {

/// Every key appears at most once in the sequence.
pub open spec fn keys_unique<K, V>(s: Seq<(K, V)>) -> bool {
    forall|i: int, j: int| 0 <= i < j < s.len() ==> s[i].0 != s[j].0
}

/// The map an association sequence stands for.  With `keys_unique` the
/// choice of index is determined, so the value function is well defined.
pub open spec fn assoc_map<K, V>(s: Seq<(K, V)>) -> Map<K, V> {
    Map::new(
        |k: K| exists|i: int| 0 <= i < s.len() && s[i].0 == k,
        |k: K| s[choose|i: int| 0 <= i < s.len() && s[i].0 == k].1,
    )
}

/// A pair found at index `i` is in the map, with the value stored there.
pub proof fn lemma_assoc_at<K, V>(s: Seq<(K, V)>, i: int)
    requires
        keys_unique(s),
        0 <= i < s.len(),
    ensures
        assoc_map(s).contains_key(s[i].0),
        assoc_map(s)[s[i].0] == s[i].1,
{
    let k = s[i].0;
    assert(0 <= i < s.len() && s[i].0 == k);
    let j = choose|n: int| 0 <= n < s.len() && s[n].0 == k;
    assert(j == i);
}

/// A key matched by no index is outside the map.
pub proof fn lemma_assoc_absent<K, V>(s: Seq<(K, V)>, k: K)
    requires
        forall|i: int| 0 <= i < s.len() ==> s[i].0 != k,
    ensures
        !assoc_map(s).contains_key(k),
{
}

/// The empty sequence stands for the empty map.
pub proof fn lemma_assoc_empty<K, V>()
    ensures
        assoc_map(Seq::<(K, V)>::empty()) == Map::<K, V>::empty(),
{
    assert(assoc_map(Seq::<(K, V)>::empty()) =~= Map::<K, V>::empty());
}

/// Overwriting the value at index `i` inserts at that pair's key alone.
pub proof fn lemma_assoc_update<K, V>(s: Seq<(K, V)>, i: int, v: V)
    requires
        keys_unique(s),
        0 <= i < s.len(),
    ensures
        keys_unique(s.update(i, (s[i].0, v))),
        assoc_map(s.update(i, (s[i].0, v))) == assoc_map(s).insert(s[i].0, v),
{
    let k = s[i].0;
    let t = s.update(i, (k, v));
    assert(forall|n: int| 0 <= n < s.len() ==> t[n].0 == s[n].0);
    lemma_assoc_at(t, i);
    assert forall|k2: K|
        assoc_map(t).contains_key(k2) == assoc_map(s).insert(k, v).contains_key(k2) by {
        assert(forall|n: int| 0 <= n < s.len() && s[n].0 == k2 ==> t[n].0 == k2);
        assert(forall|n: int| 0 <= n < t.len() && t[n].0 == k2 ==> s[n].0 == k2);
    }
    assert forall|k2: K| assoc_map(t).contains_key(k2) && k2 != k implies
        assoc_map(t)[k2] == assoc_map(s)[k2] by {
        let n = choose|n: int| 0 <= n < t.len() && t[n].0 == k2;
        assert(s[n].0 == k2);
        lemma_assoc_at(s, n);
        lemma_assoc_at(t, n);
    }
    assert(assoc_map(t) =~= assoc_map(s).insert(k, v));
}

/// Appending a pair with a fresh key inserts that key into the map.
pub proof fn lemma_assoc_push<K, V>(s: Seq<(K, V)>, k: K, v: V)
    requires
        keys_unique(s),
        forall|i: int| 0 <= i < s.len() ==> s[i].0 != k,
    ensures
        keys_unique(s.push((k, v))),
        assoc_map(s.push((k, v))) == assoc_map(s).insert(k, v),
{
    let t = s.push((k, v));
    assert(forall|n: int| 0 <= n < s.len() ==> t[n] == s[n]);
    lemma_assoc_at(t, s.len() as int);
    assert forall|k2: K|
        assoc_map(t).contains_key(k2) == assoc_map(s).insert(k, v).contains_key(k2) by {
        assert(forall|n: int| 0 <= n < s.len() && s[n].0 == k2 ==> t[n].0 == k2);
        assert(forall|n: int| 0 <= n < t.len() && t[n].0 == k2 && k2 != k ==> n < s.len() && s[n].0 == k2);
    }
    assert forall|k2: K| assoc_map(t).contains_key(k2) && k2 != k implies
        assoc_map(t)[k2] == assoc_map(s)[k2] by {
        let n = choose|n: int| 0 <= n < t.len() && t[n].0 == k2;
        assert(n < s.len());
        lemma_assoc_at(s, n);
        lemma_assoc_at(t, n);
    }
    assert(assoc_map(t) =~= assoc_map(s).insert(k, v));
}

} // verus!
