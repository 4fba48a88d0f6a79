//! The map that a list of key and value pairs stands for, where a later pair
//! with the same key replaces an earlier one.

use vstd::prelude::*;

verus! {

/// The map that `pairs` stands for: each pair is put into the map in turn.
pub open spec fn table<K, V>(pairs: Seq<(K, V)>) -> Map<K, V>
    decreases pairs.len(),
{
    if pairs.len() == 0 {
        Map::empty()
    } else {
        table(pairs.drop_last()).insert(pairs.last().0, pairs.last().1)
    }
}

/// Whether `at` is the last place in `pairs` where `key` stands.
pub open spec fn is_last_of<K, V>(pairs: Seq<(K, V)>, key: K, at: int) -> bool {
    &&& 0 <= at < pairs.len()
    &&& pairs[at].0 == key
    &&& forall|i: int| at < i < pairs.len() ==> (#[trigger] pairs[i]).0 != key
}

/// Whether `key` stands nowhere in `pairs`.
pub open spec fn is_absent<K, V>(pairs: Seq<(K, V)>, key: K) -> bool {
    forall|i: int| 0 <= i < pairs.len() ==> (#[trigger] pairs[i]).0 != key
}

/// A key maps to the value of its last pair.
pub proof fn last_pair_wins<K, V>(pairs: Seq<(K, V)>, key: K, at: int)
    requires
        is_last_of(pairs, key, at),
    ensures
        table(pairs).contains_key(key),
        table(pairs)[key] == pairs[at].1,
    decreases pairs.len(),
{
    if at < pairs.len() - 1 {
        let front = pairs.drop_last();
        assert(forall|i: int| 0 <= i < front.len() ==> front[i] == pairs[i]);
        last_pair_wins(front, key, at);
    }
}

/// A key that stands nowhere is not in the map.
pub proof fn absent_key_is_unmapped<K, V>(pairs: Seq<(K, V)>, key: K)
    requires
        is_absent(pairs, key),
    ensures
        !table(pairs).contains_key(key),
    decreases pairs.len(),
{
    if pairs.len() > 0 {
        let front = pairs.drop_last();
        assert(forall|i: int| 0 <= i < front.len() ==> front[i] == pairs[i]);
        absent_key_is_unmapped(front, key);
    }
}

/// A pair added at the end is put into the map.
pub proof fn pushed_pair_is_inserted<K, V>(pairs: Seq<(K, V)>, key: K, value: V)
    ensures
        table(pairs.push((key, value))) == table(pairs).insert(key, value),
{
    assert(pairs.push((key, value)).drop_last() =~= pairs);
}

/// A new value at the last place of a key is put into the map.
pub proof fn replaced_pair_is_inserted<K, V>(pairs: Seq<(K, V)>, key: K, at: int, value: V)
    requires
        is_last_of(pairs, key, at),
    ensures
        table(pairs.update(at, (key, value))) == table(pairs).insert(key, value),
    decreases pairs.len(),
{
    let changed = pairs.update(at, (key, value));
    if at == pairs.len() - 1 {
        assert(changed.drop_last() =~= pairs.drop_last());
        assert(table(changed) =~= table(pairs).insert(key, value));
    } else {
        let front = pairs.drop_last();
        assert(forall|i: int| 0 <= i < front.len() ==> front[i] == pairs[i]);
        replaced_pair_is_inserted(front, key, at, value);
        assert(changed.drop_last() =~= front.update(at, (key, value)));
        assert(changed.last() == pairs.last());
        assert(pairs.last().0 != key);
        assert(table(changed) =~= table(pairs).insert(key, value));
    }
}

/// The keys of the map are the keys that stand in the pairs.
pub proof fn keys_stand_in_pairs<K, V>(pairs: Seq<(K, V)>, key: K)
    ensures
        table(pairs).contains_key(key) <==> exists|i: int|
            0 <= i < pairs.len() && (#[trigger] pairs[i]).0 == key,
    decreases pairs.len(),
{
    if pairs.len() > 0 {
        let front = pairs.drop_last();
        keys_stand_in_pairs(front, key);
        assert(forall|i: int| 0 <= i < front.len() ==> front[i] == pairs[i]);
        if table(pairs).contains_key(key) {
            if pairs.last().0 == key {
                assert(pairs[pairs.len() - 1].0 == key);
            } else {
                let i = choose|i: int| 0 <= i < front.len() && (#[trigger] front[i]).0 == key;
                assert(pairs[i].0 == key);
            }
        }
        if exists|i: int| 0 <= i < pairs.len() && (#[trigger] pairs[i]).0 == key {
            let i = choose|i: int| 0 <= i < pairs.len() && (#[trigger] pairs[i]).0 == key;
            if i < front.len() {
                assert(front[i].0 == key);
            }
        }
    }
}

} // verus!
