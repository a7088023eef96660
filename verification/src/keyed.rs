//! Lists of entries keyed by strings, used as maps in which a later insert of a
//! key replaces the earlier value.
use vstd::prelude::*;
use crate::text::str_eq;

verus! {

/// No two entries share a key.
pub open spec fn keys_distinct<V>(e: Seq<(String, V)>) -> bool {
    forall|i: int, j: int| 0 <= i < e.len() && 0 <= j < e.len() && i != j ==> #[trigger] e[i].0@ != #[trigger] e[j].0@
}

/// Whether some entry has key `k`.
pub open spec fn has_key<V>(e: Seq<(String, V)>, k: Seq<char>) -> bool {
    exists|i: int| 0 <= i < e.len() && #[trigger] e[i].0@ == k
}

/// The index of an entry with key `k`.
pub open spec fn index_of_key<V>(e: Seq<(String, V)>, k: Seq<char>) -> int {
    choose|i: int| 0 <= i < e.len() && #[trigger] e[i].0@ == k
}

/// The map the entries stand for.
pub open spec fn entries_map<V>(e: Seq<(String, V)>) -> Map<Seq<char>, V> {
    Map::new(|k: Seq<char>| has_key(e, k), |k: Seq<char>| e[index_of_key(e, k)].1)
}

/// Sets `key` to `value`: the entry with that key gets the new value, or a new
/// entry is added at the end.
pub fn insert_entry<V>(entries: &mut Vec<(String, V)>, key: String, value: V)
    requires
        keys_distinct(old(entries)@),
    ensures
        keys_distinct(final(entries)@),
        entries_map(final(entries)@) == entries_map(old(entries)@).insert(key@, value),
        has_key(old(entries)@, key@) ==> final(entries)@.len() == old(entries)@.len(),
        !has_key(old(entries)@, key@) ==> final(entries)@ == old(entries)@.push((key, value)),
{
    let ghost e0 = entries@;
    let mut i: usize = 0;
    while i < entries.len()
        invariant
            entries@ == e0,
            e0 == old(entries)@,
            keys_distinct(e0),
            i <= e0.len(),
            forall|j: int| 0 <= j < i ==> #[trigger] e0[j].0@ != key@,
        decreases e0.len() - i,
    {
        if str_eq(entries[i].0.as_str(), key.as_str()) {
            let ghost k = key@;
            entries.set(i, (key, value));
            proof {
                let e1 = entries@;
                assert(keys_distinct(e1)) by {
                    assert forall|a: int, b: int| 0 <= a < e1.len() && 0 <= b < e1.len() && a != b implies #[trigger] e1[a].0@ != #[trigger] e1[b].0@ by {
                        if a != i && b != i {
                            assert(e1[a] == e0[a] && e1[b] == e0[b]);
                        } else if a == i {
                            assert(e0[i as int].0@ == k);
                            assert(e1[b] == e0[b]);
                        } else {
                            assert(e0[i as int].0@ == k);
                            assert(e1[a] == e0[a]);
                        }
                    }
                }
                assert forall|kk: Seq<char>| has_key(e1, kk) == has_key(e0, kk) by {
                    if has_key(e0, kk) {
                        let j = choose|j: int| 0 <= j < e0.len() && #[trigger] e0[j].0@ == kk;
                        assert(e1[j].0@ == kk);
                    }
                    if has_key(e1, kk) {
                        let j = choose|j: int| 0 <= j < e1.len() && #[trigger] e1[j].0@ == kk;
                        assert(e0[j].0@ == kk);
                    }
                }
                assert(has_key(e0, k)) by { assert(e0[i as int].0@ == k); }
                assert(entries_map(e1) =~= entries_map(e0).insert(k, value)) by {
                    assert forall|kk: Seq<char>| #[trigger] entries_map(e1).contains_key(kk) implies
                        entries_map(e1)[kk] == entries_map(e0).insert(k, value)[kk] by {
                        let j1 = index_of_key(e1, kk);
                        if kk == k {
                            assert(e1[i as int].0@ == k);
                            assert(j1 == i);
                        } else {
                            let j0 = index_of_key(e0, kk);
                            assert(e0[j0].0@ == kk);
                            assert(j0 != i);
                            assert(e1[j0].0@ == kk);
                            assert(j1 == j0);
                        }
                    }
                }
            }
            return;
        }
        i = i + 1;
    }
    let ghost k = key@;
    entries.push((key, value));
    proof {
        let e1 = entries@;
        assert(!has_key(e0, k));
        assert(keys_distinct(e1)) by {
            assert forall|a: int, b: int| 0 <= a < e1.len() && 0 <= b < e1.len() && a != b implies #[trigger] e1[a].0@ != #[trigger] e1[b].0@ by {
                if a < e0.len() && b < e0.len() {
                    assert(e1[a] == e0[a] && e1[b] == e0[b]);
                } else if a == e0.len() {
                    assert(e1[b] == e0[b]);
                } else {
                    assert(e1[a] == e0[a]);
                }
            }
        }
        assert(entries_map(e1) =~= entries_map(e0).insert(k, value)) by {
            assert forall|kk: Seq<char>| has_key(e1, kk) == (has_key(e0, kk) || kk == k) by {
                if has_key(e0, kk) {
                    let j = choose|j: int| 0 <= j < e0.len() && #[trigger] e0[j].0@ == kk;
                    assert(e1[j].0@ == kk);
                }
                if kk == k {
                    assert(e1[e0.len() as int].0@ == kk);
                }
                if has_key(e1, kk) && kk != k {
                    let j = choose|j: int| 0 <= j < e1.len() && #[trigger] e1[j].0@ == kk;
                    assert(j < e0.len());
                    assert(e0[j].0@ == kk);
                }
            }
            assert forall|kk: Seq<char>| #[trigger] entries_map(e1).contains_key(kk) implies
                entries_map(e1)[kk] == entries_map(e0).insert(k, value)[kk] by {
                let j1 = index_of_key(e1, kk);
                if kk == k {
                    assert(e1[e0.len() as int].0@ == k);
                    assert(j1 == e0.len());
                } else {
                    let j0 = index_of_key(e0, kk);
                    assert(e0[j0].0@ == kk);
                    assert(e1[j0].0@ == kk);
                    assert(j1 == j0);
                }
            }
        }
    }
}

} // verus!
