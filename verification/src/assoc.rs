//! Association lists: sequences of key/value pairs in which the last entry for
//! a key is the one that counts. Used for the kernel's keyed tables.

use vstd::prelude::*;

verus! {

/// The value bound to `k`: the one in the last entry with that key.
pub open spec fn assoc_get<K, V>(s: Seq<(K, V)>, k: K) -> Option<V>
    decreases s.len(),
{
    if s.len() == 0 {
        None
    } else if s.last().0 == k {
        Some(s.last().1)
    } else {
        assoc_get(s.drop_last(), k)
    }
}

/// `i` is the position of the last entry with key `k`.
pub open spec fn is_last_index<K, V>(s: Seq<(K, V)>, k: K, i: int) -> bool {
    &&& 0 <= i < s.len()
    &&& s[i].0 == k
    &&& forall|j: int| i < j < s.len() ==> #[trigger] s[j].0 != k
}

/// No entry has key `k`.
pub open spec fn assoc_absent<K, V>(s: Seq<(K, V)>, k: K) -> bool {
    forall|j: int| 0 <= j < s.len() ==> #[trigger] s[j].0 != k
}

pub proof fn lemma_assoc_absent<K, V>(s: Seq<(K, V)>, k: K)
    requires
        assoc_absent(s, k),
    ensures
        assoc_get(s, k) is None,
    decreases s.len(),
{
    if s.len() > 0 {
        lemma_assoc_absent(s.drop_last(), k);
    }
}

pub proof fn lemma_assoc_last<K, V>(s: Seq<(K, V)>, k: K, i: int)
    requires
        is_last_index(s, k, i),
    ensures
        assoc_get(s, k) == Some(s[i].1),
    decreases s.len(),
{
    if s.last().0 != k {
        lemma_assoc_last(s.drop_last(), k, i);
    }
}

pub proof fn lemma_assoc_push<K, V>(s: Seq<(K, V)>, k: K, v: V, q: K)
    ensures
        assoc_get(s.push((k, v)), q) == if q == k { Some(v) } else { assoc_get(s, q) },
{
    assert(s.push((k, v)).drop_last() =~= s);
}

pub proof fn lemma_assoc_update<K, V>(s: Seq<(K, V)>, k: K, i: int, v: V, q: K)
    requires
        is_last_index(s, k, i),
    ensures
        assoc_get(s.update(i, (k, v)), q) == if q == k { Some(v) } else { assoc_get(s, q) },
    decreases s.len(),
{
    let t = s.update(i, (k, v));
    if q == k {
        assert(is_last_index(t, k, i));
        lemma_assoc_last(t, k, i);
    } else if i == s.len() - 1 {
        assert(t.drop_last() =~= s.drop_last());
    } else {
        assert(t.drop_last() =~= s.drop_last().update(i, (k, v)));
        lemma_assoc_update(s.drop_last(), k, i, v, q);
    }
}

/// Two tables with the same key at every position bind the same keys.
pub proof fn lemma_assoc_same_keys<K, V, W>(s: Seq<(K, V)>, t: Seq<(K, W)>, k: K)
    requires
        s.len() == t.len(),
        forall|i: int| 0 <= i < s.len() ==> #[trigger] s[i].0 == t[i].0,
    ensures
        (assoc_get(s, k) is Some) == (assoc_get(t, k) is Some),
    decreases s.len(),
{
    if s.len() > 0 {
        assert(s.last().0 == t.last().0);
        assert forall|i: int| 0 <= i < s.drop_last().len() implies #[trigger] s.drop_last()[i].0 == t.drop_last()[i].0 by {
            assert(s.drop_last()[i] == s[i]);
            assert(t.drop_last()[i] == t[i]);
        }
        lemma_assoc_same_keys(s.drop_last(), t.drop_last(), k);
    }
}

/// Removing the entry at the last index of `k` leaves every other key's value.
pub proof fn lemma_assoc_remove_other<K, V>(s: Seq<(K, V)>, k: K, i: int, q: K)
    requires
        0 <= i < s.len(),
        s[i].0 == k,
        q != k,
    ensures
        assoc_get(s.remove(i), q) == assoc_get(s, q),
    decreases s.len(),
{
    let t = s.remove(i);
    if i == s.len() - 1 {
        assert(t =~= s.drop_last());
    } else {
        assert(t.drop_last() =~= s.drop_last().remove(i));
        assert(t.last() == s.last());
        lemma_assoc_remove_other(s.drop_last(), k, i, q);
    }
}

} // verus!
