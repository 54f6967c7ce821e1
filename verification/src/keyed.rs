//! Small association lists keyed by a string identifier, kept in insertion
//! order; the first entry with a key is the one that counts.

use vstd::prelude::*;

verus! {

/// The entries with each key taken by its character sequence.
pub open spec fn keyed_view<V>(entries: Seq<(String, V)>) -> Seq<(Seq<char>, V)> {
    entries.map_values(|e: (String, V)| (e.0@, e.1))
}

/// Index of the first entry whose key is `key`, or -1 when there is none.
pub open spec fn key_index<V>(entries: Seq<(Seq<char>, V)>, key: Seq<char>) -> int
    decreases entries.len(),
{
    if entries.len() == 0 {
        -1
    } else {
        let k = key_index(entries.drop_last(), key);
        if k >= 0 {
            k
        } else if entries.last().0 == key {
            entries.len() - 1
        } else {
            -1
        }
    }
}

/// What `key_index` means: -1 exactly when no entry has the key, otherwise
/// the first entry with the key.
pub proof fn lemma_key_index<V>(entries: Seq<(Seq<char>, V)>, key: Seq<char>)
    ensures
        -1 <= key_index(entries, key) < entries.len(),
        key_index(entries, key) == -1 <==> forall|j: int|
            0 <= j < entries.len() ==> (#[trigger] entries[j]).0 != key,
        key_index(entries, key) >= 0 ==> entries[key_index(entries, key)].0 == key,
        forall|j: int| 0 <= j < key_index(entries, key) ==> (#[trigger] entries[j]).0 != key,
    decreases entries.len(),
{
    if entries.len() > 0 {
        let init = entries.drop_last();
        lemma_key_index(init, key);
        assert(forall|j: int| 0 <= j < init.len() ==> init[j] == entries[j]);
        if key_index(init, key) == -1 && entries.last().0 != key {
            assert forall|j: int| 0 <= j < entries.len() implies (#[trigger] entries[j]).0
                != key by {
                if j < init.len() {
                    assert(init[j] == entries[j]);
                }
            }
        }
    }
}

/// The key index depends only on the keys: entries with the same keys, in
/// the same order, give the same index.
pub proof fn lemma_key_index_same_keys<V, W>(
    a: Seq<(Seq<char>, V)>,
    b: Seq<(Seq<char>, W)>,
    key: Seq<char>,
)
    requires
        a.len() == b.len(),
        forall|j: int| 0 <= j < a.len() ==> (#[trigger] a[j]).0 == b[j].0,
    ensures
        key_index(a, key) == key_index(b, key),
    decreases a.len(),
{
    if a.len() > 0 {
        lemma_key_index_same_keys(a.drop_last(), b.drop_last(), key);
    }
}

/// Appending an entry leaves every earlier key's index alone and gives a new
/// key the last index.
pub proof fn lemma_key_index_push<V>(entries: Seq<(Seq<char>, V)>, e: (Seq<char>, V), key: Seq<char>)
    ensures
        key_index(entries.push(e), key) == (if key_index(entries, key) >= 0 {
            key_index(entries, key)
        } else if e.0 == key {
            entries.len() as int
        } else {
            -1
        }),
{
    assert(entries.push(e).drop_last() =~= entries);
}

/// The value stored under `key`, if any.
pub open spec fn spec_lookup<V>(entries: Seq<(Seq<char>, V)>, key: Seq<char>) -> Option<V> {
    if key_index(entries, key) >= 0 {
        Some(entries[key_index(entries, key)].1)
    } else {
        None
    }
}

/// The entries after storing `value` under `key`: the first entry with the
/// key takes the new value; without one, a new entry is appended.
pub open spec fn spec_upsert<V>(entries: Seq<(Seq<char>, V)>, key: Seq<char>, value: V) -> Seq<
    (Seq<char>, V),
> {
    let i = key_index(entries, key);
    if i >= 0 {
        entries.update(i, (key, value))
    } else {
        entries.push((key, value))
    }
}

/// The entries after changing the value stored under `key` with `f`; unchanged
/// when no entry has the key.
pub open spec fn spec_modify<V>(entries: Seq<(Seq<char>, V)>, key: Seq<char>, f: spec_fn(V) -> V) -> Seq<
    (Seq<char>, V),
> {
    let i = key_index(entries, key);
    if i >= 0 {
        entries.update(i, (key, f(entries[i].1)))
    } else {
        entries
    }
}

/// Finds the first entry whose key is `key`.
pub fn find_key<V>(entries: &Vec<(String, V)>, key: &str) -> (r: Option<usize>)
    ensures
        match r {
            Some(i) => i as int == key_index(keyed_view(entries@), key@),
            None => key_index(keyed_view(entries@), key@) == -1,
        },
{
    let ghost kv = keyed_view(entries@);
    let k = key.to_owned();
    let mut i: usize = 0;
    while i < entries.len()
        invariant
            i <= entries@.len(),
            kv == keyed_view(entries@),
            k@ == key@,
            forall|j: int| 0 <= j < i ==> (#[trigger] kv[j]).0 != key@,
        decreases entries@.len() - i,
    {
        if entries[i].0 == k {
            proof {
                lemma_key_index(kv, key@);
                assert(kv[i as int].0 == key@);
            }
            return Some(i);
        }
        i = i + 1;
    }
    proof {
        lemma_key_index(kv, key@);
    }
    None
}

/// Stores `value` under `key`, replacing the value of an existing entry.
pub fn upsert<V>(entries: &mut Vec<(String, V)>, key: String, value: V)
    ensures
        keyed_view(final(entries)@) == spec_upsert(keyed_view(old(entries)@), key@, value),
{
    proof {
        lemma_key_index(keyed_view(entries@), key@);
    }
    match find_key(entries, key.as_str()) {
        Some(i) => {
            let k = entries[i].0.clone();
            entries.set(i, (k, value));
            proof {
                assert(keyed_view(entries@) =~= spec_upsert(
                    keyed_view(old(entries)@),
                    key@,
                    value,
                ));
            }
        },
        None => {
            entries.push((key, value));
            proof {
                assert(keyed_view(entries@) =~= spec_upsert(
                    keyed_view(old(entries)@),
                    key@,
                    value,
                ));
            }
        },
    }
}

/// A read after a write gives back what was written, and leaves every other
/// key's value as it was.
pub proof fn lemma_lookup_after_upsert<V>(
    entries: Seq<(Seq<char>, V)>,
    key: Seq<char>,
    value: V,
    other: Seq<char>,
)
    ensures
        spec_lookup(spec_upsert(entries, key, value), key) == Some(value),
        other != key ==> spec_lookup(spec_upsert(entries, key, value), other) == spec_lookup(
            entries,
            other,
        ),
{
    let i = key_index(entries, key);
    lemma_key_index(entries, key);
    lemma_key_index(entries, other);
    if i >= 0 {
        let e2 = entries.update(i, (key, value));
        lemma_key_index_same_keys(entries, e2, key);
        lemma_key_index_same_keys(entries, e2, other);
    } else {
        lemma_key_index_push(entries, (key, value), key);
        lemma_key_index_push(entries, (key, value), other);
    }
}

/// Changing the value under a key leaves every other key's value as it was,
/// and the key stays present exactly when it was.
pub proof fn lemma_lookup_after_modify<V>(
    entries: Seq<(Seq<char>, V)>,
    key: Seq<char>,
    f: spec_fn(V) -> V,
    other: Seq<char>,
)
    ensures
        spec_lookup(spec_modify(entries, key, f), key) == (match spec_lookup(entries, key) {
            Some(v) => Some(f(v)),
            None => None,
        }),
        other != key ==> spec_lookup(spec_modify(entries, key, f), other) == spec_lookup(
            entries,
            other,
        ),
{
    let i = key_index(entries, key);
    lemma_key_index(entries, key);
    lemma_key_index(entries, other);
    if i >= 0 {
        let e2 = entries.update(i, (key, f(entries[i].1)));
        lemma_key_index_same_keys(entries, e2, key);
        lemma_key_index_same_keys(entries, e2, other);
    }
}

} // verus!
