//! A map given by a list of distinct keys and the list of their values.

use vstd::prelude::*;

verus! {

/// The map that takes `keys[i]` to `vals[i]`.
pub open spec fn assoc<V>(keys: Seq<Seq<char>>, vals: Seq<V>) -> Map<Seq<char>, V> {
    Map::new(|k: Seq<char>| keys.contains(k), |k: Seq<char>| vals[keys.index_of(k)])
}

/// The map holds each key with the value at the key's position.
pub proof fn lemma_assoc_at<V>(keys: Seq<Seq<char>>, vals: Seq<V>, i: int)
    requires
        keys.no_duplicates(),
        keys.len() == vals.len(),
        0 <= i < keys.len(),
    ensures
        assoc(keys, vals).contains_key(keys[i]),
        assoc(keys, vals)[keys[i]] == vals[i],
{
}

/// Appending a new key with its value inserts it into the map.
pub proof fn lemma_assoc_push<V>(keys: Seq<Seq<char>>, vals: Seq<V>, k: Seq<char>, v: V)
    requires
        keys.no_duplicates(),
        keys.len() == vals.len(),
        !keys.contains(k),
    ensures
        keys.push(k).no_duplicates(),
        assoc(keys.push(k), vals.push(v)) == assoc(keys, vals).insert(k, v),
{
    let keys2 = keys.push(k);
    assert forall|x: Seq<char>| #[trigger] keys2.contains(x) <==> keys.contains(x) || x == k by {
        if keys.contains(x) {
            assert(keys2[keys.index_of(x)] == x);
        }
        if x == k {
            assert(keys2[keys.len() as int] == x);
        }
    }
}

/// Replacing the value at a position replaces the value of the key there.
pub proof fn lemma_assoc_update<V>(keys: Seq<Seq<char>>, vals: Seq<V>, i: int, v: V)
    requires
        keys.no_duplicates(),
        keys.len() == vals.len(),
        0 <= i < keys.len(),
    ensures
        assoc(keys, vals.update(i, v)) == assoc(keys, vals).insert(keys[i], v),
{
}

/// Removing a position removes the key there from the map.
pub proof fn lemma_assoc_remove<V>(keys: Seq<Seq<char>>, vals: Seq<V>, i: int)
    requires
        keys.no_duplicates(),
        keys.len() == vals.len(),
        0 <= i < keys.len(),
    ensures
        keys.remove(i).no_duplicates(),
        assoc(keys.remove(i), vals.remove(i)) == assoc(keys, vals).remove(keys[i]),
{
    let keys2 = keys.remove(i);
    assert forall|x: Seq<char>| #[trigger] keys2.contains(x) <==> keys.contains(x) && x
        != keys[i] by {
        if keys.contains(x) && x != keys[i] {
            let j = keys.index_of(x);
            assert(keys2[if j < i { j } else { j - 1 }] == x);
        }
    }
}

} // verus!
