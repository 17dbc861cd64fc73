//! A map held as a sequence of entries with distinct keys.

use vstd::prelude::*;

verus! {

/// No key occurs twice.
pub open spec fn distinct_keys<K, V>(entries: Seq<(K, V)>) -> bool {
    forall|i: int, j: int|
        0 <= i < j < entries.len() ==> (#[trigger] entries[i]).0 != (#[trigger] entries[j]).0
}

/// Some entry has the key.
pub open spec fn has_key<K, V>(entries: Seq<(K, V)>, key: K) -> bool {
    exists|i: int| 0 <= i < entries.len() && (#[trigger] entries[i]).0 == key
}

/// The place of an entry with the key.
pub open spec fn index_of<K, V>(entries: Seq<(K, V)>, key: K) -> int {
    choose|i: int| 0 <= i < entries.len() && (#[trigger] entries[i]).0 == key
}

/// The map that the entries stand for.
pub open spec fn table<K, V>(entries: Seq<(K, V)>) -> Map<K, V> {
    Map::new(|key: K| has_key(entries, key), |key: K| entries[index_of(entries, key)].1)
}

/// With distinct keys, the entry at a place is what the map holds for its
/// key.
pub proof fn lemma_table_at<K, V>(entries: Seq<(K, V)>, at: int)
    requires
        distinct_keys(entries),
        0 <= at < entries.len(),
    ensures
        has_key(entries, entries[at].0),
        index_of(entries, entries[at].0) == at,
        table(entries).dom().contains(entries[at].0),
        table(entries)[entries[at].0] == entries[at].1,
{
    let key = entries[at].0;
    assert(has_key(entries, key));
    let found = index_of(entries, key);
    assert(0 <= found < entries.len() && entries[found].0 == key);
    if found < at {
        assert(entries[found].0 != entries[at].0);
    } else if at < found {
        assert(entries[at].0 != entries[found].0);
    }
}

/// The map of no entries is empty.
pub proof fn lemma_table_empty<K, V>()
    ensures
        table(Seq::<(K, V)>::empty()) == Map::<K, V>::empty(),
        distinct_keys(Seq::<(K, V)>::empty()),
{
    assert(table(Seq::<(K, V)>::empty()) =~= Map::<K, V>::empty());
}

/// Adding an entry under a new key inserts it into the map.
pub proof fn lemma_table_push<K, V>(entries: Seq<(K, V)>, key: K, value: V)
    requires
        distinct_keys(entries),
        !has_key(entries, key),
    ensures
        distinct_keys(entries.push((key, value))),
        table(entries.push((key, value))) == table(entries).insert(key, value),
{
    let after = entries.push((key, value));
    assert forall|i: int, j: int| 0 <= i < j < after.len() implies (#[trigger] after[i]).0 != (
    #[trigger] after[j]).0 by {
        if j < entries.len() {
            assert(entries[i].0 != entries[j].0);
        } else {
            assert(entries[i].0 != key);
        }
    }
    assert forall|k: K| #[trigger] has_key(after, k) <==> (k == key || has_key(entries, k)) by {
        if has_key(after, k) {
            let i = index_of(after, k);
            if i < entries.len() {
                assert(entries[i].0 == k);
            }
        }
        if k == key {
            assert(after[entries.len() as int].0 == k);
        }
        if has_key(entries, k) {
            let i = index_of(entries, k);
            assert(after[i].0 == k);
        }
    }
    assert forall|k: K| has_key(after, k) implies #[trigger] table(after)[k] == table(
        entries,
    ).insert(key, value)[k] by {
        let i = index_of(after, k);
        lemma_table_at(after, i);
        if i < entries.len() {
            lemma_table_at(entries, i);
        }
    }
    assert(table(after) =~= table(entries).insert(key, value));
}

/// Replacing the value of an entry inserts the new value under its key.
pub proof fn lemma_table_update<K, V>(entries: Seq<(K, V)>, at: int, value: V)
    requires
        distinct_keys(entries),
        0 <= at < entries.len(),
    ensures
        distinct_keys(entries.update(at, (entries[at].0, value))),
        table(entries.update(at, (entries[at].0, value))) == table(entries).insert(
            entries[at].0,
            value,
        ),
{
    let key = entries[at].0;
    let after = entries.update(at, (key, value));
    assert forall|i: int, j: int| 0 <= i < j < after.len() implies (#[trigger] after[i]).0 != (
    #[trigger] after[j]).0 by {
        assert(entries[i].0 != entries[j].0);
    }
    assert forall|k: K| #[trigger] has_key(after, k) <==> (k == key || has_key(entries, k)) by {
        if has_key(after, k) {
            let i = index_of(after, k);
            assert(entries[i].0 == k);
        }
        if k == key {
            assert(after[at].0 == k);
        }
        if has_key(entries, k) {
            let i = index_of(entries, k);
            assert(after[i].0 == k);
        }
    }
    assert forall|k: K| has_key(after, k) implies #[trigger] table(after)[k] == table(
        entries,
    ).insert(key, value)[k] by {
        let i = index_of(after, k);
        lemma_table_at(after, i);
        lemma_table_at(entries, i);
    }
    assert(table(after) =~= table(entries).insert(key, value));
}

} // verus!
