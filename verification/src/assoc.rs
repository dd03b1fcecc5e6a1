//! Association lists with unique keys, viewed as maps.
//!
//! Both shared tables of the library — the correlation table and the
//! feature cache — are small vectors of key/value pairs whose keys never
//! repeat. Their contracts speak of the [`Map`] such a list stands for;
//! the lemmas here relate the list operations to the map operations.

use vstd::prelude::*;

verus! {

/// No key occurs twice among the entries.
pub open spec fn unique_keys<K, V>(s: Seq<(K, V)>) -> bool {
    forall|i: int, j: int| 0 <= i < j < s.len() ==> (#[trigger] s[i]).0 !== (#[trigger] s[j]).0
}

/// The mapping an entry list stands for: each key to its value.
pub open spec fn assoc_map<K, V>(s: Seq<(K, V)>) -> Map<K, V> {
    Map::new(
        |k: K| exists|i: int| 0 <= i < s.len() && (#[trigger] s[i]).0 == k,
        |k: K| s[choose|i: int| 0 <= i < s.len() && (#[trigger] s[i]).0 == k].1,
    )
}

/// Under unique keys, the entry at an index is what the map holds for its
/// key.
pub proof fn lemma_assoc_lookup<K, V>(s: Seq<(K, V)>, i: int)
    requires
        unique_keys(s),
        0 <= i < s.len(),
    ensures
        assoc_map(s).dom().contains(s[i].0),
        assoc_map(s)[s[i].0] == s[i].1,
{
    let k = s[i].0;
    assert(assoc_map(s).dom().contains(k));
    let j = choose|j: int| 0 <= j < s.len() && (#[trigger] s[j]).0 == k;
    assert(j == i);
}

/// Appending an entry under a fresh key inserts it into the map.
pub proof fn lemma_assoc_push<K, V>(s: Seq<(K, V)>, k: K, v: V)
    requires
        unique_keys(s),
        !assoc_map(s).dom().contains(k),
    ensures
        unique_keys(s.push((k, v))),
        assoc_map(s.push((k, v))) =~= assoc_map(s).insert(k, v),
{
    let s2 = s.push((k, v));
    assert forall|i: int, j: int| 0 <= i < j < s2.len() implies (#[trigger] s2[i]).0 !== (
    #[trigger] s2[j]).0 by {
        if j == s.len() {
            if s[i].0 == k {
                assert(assoc_map(s).dom().contains(k));
            }
        }
    }
    assert forall|k2: K| #[trigger]
        assoc_map(s2).dom().contains(k2) == assoc_map(s).insert(k, v).dom().contains(k2) by {
        if k2 == k {
            assert(s2[s.len() as int].0 == k);
        } else {
            if assoc_map(s).dom().contains(k2) {
                let i = choose|i: int| 0 <= i < s.len() && (#[trigger] s[i]).0 == k2;
                assert(s2[i].0 == k2);
            }
            if assoc_map(s2).dom().contains(k2) {
                let i = choose|i: int| 0 <= i < s2.len() && (#[trigger] s2[i]).0 == k2;
                assert(s[i].0 == k2);
            }
        }
    }
    assert forall|k2: K| assoc_map(s2).dom().contains(k2) implies #[trigger] assoc_map(s2)[k2]
        == assoc_map(s).insert(k, v)[k2] by {
        let i = choose|i: int| 0 <= i < s2.len() && (#[trigger] s2[i]).0 == k2;
        if k2 == k {
            assert(unique_keys(s2));
            assert(s2[s.len() as int].0 == k);
            assert(i == s.len());
            assert(assoc_map(s2)[k2] == v);
        } else {
            assert(s[i].0 == k2);
            lemma_assoc_lookup(s, i);
        }
    }
}

/// Removing the entry at an index removes its key from the map.
pub proof fn lemma_assoc_remove<K, V>(s: Seq<(K, V)>, i: int)
    requires
        unique_keys(s),
        0 <= i < s.len(),
    ensures
        unique_keys(s.remove(i)),
        assoc_map(s.remove(i)) =~= assoc_map(s).remove(s[i].0),
{
    let k = s[i].0;
    let s2 = s.remove(i);
    assert forall|a: int, b: int| 0 <= a < b < s2.len() implies (#[trigger] s2[a]).0 !== (
    #[trigger] s2[b]).0 by {
        let a0 = if a < i { a } else { a + 1 };
        let b0 = if b < i { b } else { b + 1 };
        assert(s2[a] == s[a0]);
        assert(s2[b] == s[b0]);
    }
    assert forall|k2: K| #[trigger]
        assoc_map(s2).dom().contains(k2) == assoc_map(s).remove(k).dom().contains(k2) by {
        if assoc_map(s2).dom().contains(k2) {
            let a = choose|a: int| 0 <= a < s2.len() && (#[trigger] s2[a]).0 == k2;
            let a0 = if a < i { a } else { a + 1 };
            assert(s2[a] == s[a0]);
            assert(s[a0].0 == k2);
            assert(k2 !== k);
        }
        if k2 !== k && assoc_map(s).dom().contains(k2) {
            let a0 = choose|a0: int| 0 <= a0 < s.len() && (#[trigger] s[a0]).0 == k2;
            let a = if a0 < i { a0 } else { a0 - 1 };
            assert(a0 != i);
            assert(s2[a] == s[a0]);
        }
    }
    assert forall|k2: K| assoc_map(s2).dom().contains(k2) implies #[trigger] assoc_map(s2)[k2]
        == assoc_map(s).remove(k)[k2] by {
        let a = choose|a: int| 0 <= a < s2.len() && (#[trigger] s2[a]).0 == k2;
        let a0 = if a < i { a } else { a + 1 };
        assert(s2[a] == s[a0]);
        lemma_assoc_lookup(s2, a);
        lemma_assoc_lookup(s, a0);
    }
}

/// Replacing the value at an index re-inserts its key with the new value.
pub proof fn lemma_assoc_update<K, V>(s: Seq<(K, V)>, i: int, v: V)
    requires
        unique_keys(s),
        0 <= i < s.len(),
    ensures
        unique_keys(s.update(i, (s[i].0, v))),
        assoc_map(s.update(i, (s[i].0, v))) =~= assoc_map(s).insert(s[i].0, v),
{
    let k = s[i].0;
    let s2 = s.update(i, (k, v));
    assert forall|a: int, b: int| 0 <= a < b < s2.len() implies (#[trigger] s2[a]).0 !== (
    #[trigger] s2[b]).0 by {
        assert(s2[a].0 == s[a].0);
        assert(s2[b].0 == s[b].0);
    }
    assert forall|k2: K| #[trigger]
        assoc_map(s2).dom().contains(k2) == assoc_map(s).insert(k, v).dom().contains(k2) by {
        if assoc_map(s2).dom().contains(k2) {
            let a = choose|a: int| 0 <= a < s2.len() && (#[trigger] s2[a]).0 == k2;
            assert(s[a].0 == k2);
        }
        if assoc_map(s).dom().contains(k2) {
            let a = choose|a: int| 0 <= a < s.len() && (#[trigger] s[a]).0 == k2;
            assert(s2[a].0 == k2);
        }
        if k2 == k {
            assert(s2[i].0 == k);
        }
    }
    assert forall|k2: K| assoc_map(s2).dom().contains(k2) implies #[trigger] assoc_map(s2)[k2]
        == assoc_map(s).insert(k, v)[k2] by {
        let a = choose|a: int| 0 <= a < s2.len() && (#[trigger] s2[a]).0 == k2;
        lemma_assoc_lookup(s2, a);
        if k2 == k {
            assert(unique_keys(s2));
            assert(s2[i].0 == k);
            assert(a == i);
        } else {
            assert(a != i);
            assert(s2[a] == s[a]);
            lemma_assoc_lookup(s, a);
        }
    }
}

} // verus!
