//! The correspondence between a sequence of keyed records and the finite map
//! it denotes.  The storage backends keep records in vectors; their contracts
//! speak of maps.  This module defines that abstraction function and proves
//! how pushing and removing records act on the map.

use vstd::prelude::*;

verus! {

/// The map denoted by a sequence of records, each keyed by `key`.  A later
/// record with the same key shadows an earlier one.
pub open spec fn keyed_map<T>(s: Seq<T>, key: spec_fn(T) -> Seq<char>) -> Map<Seq<char>, T>
    decreases s.len(),
{
    if s.len() == 0 {
        Map::empty()
    } else {
        keyed_map(s.drop_last(), key).insert(key(s.last()), s.last())
    }
}

/// No two records of the sequence share a key.
pub open spec fn unique_keys<T>(s: Seq<T>, key: spec_fn(T) -> Seq<char>) -> bool {
    forall|i: int, j: int|
        0 <= i < j < s.len() ==> #[trigger] key(s[i]) != #[trigger] key(s[j])
}

/// A key is in the map iff some record carries it.
pub proof fn lemma_keyed_map_contains<T>(s: Seq<T>, key: spec_fn(T) -> Seq<char>, k: Seq<char>)
    ensures
        keyed_map(s, key).contains_key(k) <==> exists|i: int|
            0 <= i < s.len() && key(#[trigger] s[i]) == k,
    decreases s.len(),
{
    if s.len() == 0 {
    } else {
        lemma_keyed_map_contains(s.drop_last(), key, k);
        if key(s.last()) == k {
            assert(key(s[s.len() - 1]) == k);
        } else {
            if keyed_map(s, key).contains_key(k) {
                let i = choose|i: int|
                    0 <= i < s.drop_last().len() && key(#[trigger] s.drop_last()[i]) == k;
                assert(s.drop_last()[i] == s[i]);
            }
            if exists|i: int| 0 <= i < s.len() && key(#[trigger] s[i]) == k {
                let i = choose|i: int| 0 <= i < s.len() && key(#[trigger] s[i]) == k;
                assert(i < s.len() - 1);
                assert(s.drop_last()[i] == s[i]);
            }
        }
    }
}

/// Under unique keys, the map sends each record's key to that record.
pub proof fn lemma_keyed_map_index<T>(s: Seq<T>, key: spec_fn(T) -> Seq<char>, i: int)
    requires
        unique_keys(s, key),
        0 <= i < s.len(),
    ensures
        keyed_map(s, key).contains_key(key(s[i])),
        keyed_map(s, key)[key(s[i])] == s[i],
    decreases s.len(),
{
    if i == s.len() - 1 {
    } else {
        assert(key(s[i]) != key(s[s.len() - 1]));
        assert forall|a: int, b: int| 0 <= a < b < s.drop_last().len() implies #[trigger] key(
            s.drop_last()[a],
        ) != #[trigger] key(s.drop_last()[b]) by {
            assert(s.drop_last()[a] == s[a]);
            assert(s.drop_last()[b] == s[b]);
        }
        lemma_keyed_map_index(s.drop_last(), key, i);
        assert(s.drop_last()[i] == s[i]);
    }
}

/// Appending a record inserts its key.
pub proof fn lemma_keyed_map_push<T>(s: Seq<T>, key: spec_fn(T) -> Seq<char>, v: T)
    ensures
        keyed_map(s.push(v), key) == keyed_map(s, key).insert(key(v), v),
{
    assert(s.push(v).drop_last() =~= s);
    assert(s.push(v).last() == v);
}

/// Uniqueness survives dropping the last record.
proof fn lemma_unique_drop_last<T>(s: Seq<T>, key: spec_fn(T) -> Seq<char>)
    requires
        unique_keys(s, key),
        s.len() > 0,
    ensures
        unique_keys(s.drop_last(), key),
{
    assert forall|a: int, b: int| 0 <= a < b < s.drop_last().len() implies #[trigger] key(
        s.drop_last()[a],
    ) != #[trigger] key(s.drop_last()[b]) by {
        assert(s.drop_last()[a] == s[a]);
        assert(s.drop_last()[b] == s[b]);
    }
}

/// Under unique keys, removing the record at `i` removes its key from the
/// map and nothing else.
pub proof fn lemma_keyed_map_remove<T>(s: Seq<T>, key: spec_fn(T) -> Seq<char>, i: int)
    requires
        unique_keys(s, key),
        0 <= i < s.len(),
    ensures
        keyed_map(s.remove(i), key) == keyed_map(s, key).remove(key(s[i])),
    decreases s.len(),
{
    lemma_unique_drop_last(s, key);
    if i == s.len() - 1 {
        assert(s.remove(i) =~= s.drop_last());
        lemma_keyed_map_contains(s.drop_last(), key, key(s[i]));
        assert forall|j: int| 0 <= j < s.drop_last().len() implies key(
            #[trigger] s.drop_last()[j],
        ) != key(s[i]) by {
            assert(s.drop_last()[j] == s[j]);
        }
        assert(!keyed_map(s.drop_last(), key).contains_key(key(s[i])));
        assert(keyed_map(s.drop_last(), key).insert(key(s.last()), s.last()).remove(key(s[i]))
            =~= keyed_map(s.drop_last(), key));
    } else {
        let t = s.remove(i);
        assert(t.len() == s.len() - 1);
        assert(t.last() == s.last());
        assert(t.drop_last() =~= s.drop_last().remove(i));
        lemma_keyed_map_remove(s.drop_last(), key, i);
        assert(s.drop_last()[i] == s[i]);
        // keys differ, so the final insert commutes with the removal
        assert(key(s[i]) != key(s.last()));
        assert(keyed_map(s.drop_last(), key).remove(key(s[i])).insert(key(s.last()), s.last())
            =~= keyed_map(s.drop_last(), key).insert(key(s.last()), s.last()).remove(key(s[i])));
        assert(keyed_map(t, key) == keyed_map(t.drop_last(), key).insert(key(t.last()), t.last()));
    }
}

/// Uniqueness survives removing a record.
pub proof fn lemma_unique_remove<T>(s: Seq<T>, key: spec_fn(T) -> Seq<char>, i: int)
    requires
        unique_keys(s, key),
        0 <= i < s.len(),
    ensures
        unique_keys(s.remove(i), key),
{
    let t = s.remove(i);
    assert forall|a: int, b: int| 0 <= a < b < t.len() implies #[trigger] key(t[a])
        != #[trigger] key(t[b]) by {
        let a0 = if a < i { a } else { a + 1 };
        let b0 = if b < i { b } else { b + 1 };
        assert(t[a] == s[a0]);
        assert(t[b] == s[b0]);
    }
}

/// Uniqueness survives appending a record whose key is absent.
pub proof fn lemma_unique_push<T>(s: Seq<T>, key: spec_fn(T) -> Seq<char>, v: T)
    requires
        unique_keys(s, key),
        forall|i: int| 0 <= i < s.len() ==> key(#[trigger] s[i]) != key(v),
    ensures
        unique_keys(s.push(v), key),
{
    let t = s.push(v);
    assert forall|a: int, b: int| 0 <= a < b < t.len() implies #[trigger] key(t[a])
        != #[trigger] key(t[b]) by {
        if b < s.len() {
            assert(t[a] == s[a]);
            assert(t[b] == s[b]);
        } else {
            assert(t[a] == s[a]);
            assert(t[b] == v);
        }
    }
}

/// Prepending a record with a fresh key inserts it, under unique keys.
pub proof fn lemma_keyed_map_prepend<T>(s: Seq<T>, key: spec_fn(T) -> Seq<char>, v: T)
    requires
        unique_keys(s, key),
        forall|i: int| 0 <= i < s.len() ==> key(#[trigger] s[i]) != key(v),
    ensures
        keyed_map(seq![v] + s, key) == keyed_map(s, key).insert(key(v), v),
    decreases s.len(),
{
    let b = seq![v] + s;
    if s.len() == 0 {
        assert(b.drop_last() =~= Seq::<T>::empty());
        assert(b.last() == v);
        assert(keyed_map(b, key) == keyed_map(b.drop_last(), key).insert(key(b.last()), b.last()));
        assert(keyed_map(b, key) =~= keyed_map(s, key).insert(key(v), v));
    } else {
        let t = s.drop_last();
        lemma_unique_drop_last(s, key);
        assert forall|i: int| 0 <= i < t.len() implies key(#[trigger] t[i]) != key(v) by {
            assert(t[i] == s[i]);
        }
        lemma_keyed_map_prepend(t, key, v);
        assert(b.drop_last() =~= seq![v] + t);
        assert(b.last() == s.last());
        assert(key(s[s.len() - 1]) != key(v));
        assert(keyed_map(t, key).insert(key(v), v).insert(key(s.last()), s.last())
            =~= keyed_map(t, key).insert(key(s.last()), s.last()).insert(key(v), v));
        assert(keyed_map(b, key) =~= keyed_map(s, key).insert(key(v), v));
    }
}

/// Uniqueness survives prepending a record whose key is absent.
pub proof fn lemma_unique_prepend<T>(s: Seq<T>, key: spec_fn(T) -> Seq<char>, v: T)
    requires
        unique_keys(s, key),
        forall|i: int| 0 <= i < s.len() ==> key(#[trigger] s[i]) != key(v),
    ensures
        unique_keys(seq![v] + s, key),
{
    let b = seq![v] + s;
    assert forall|a: int, c: int| 0 <= a < c < b.len() implies #[trigger] key(b[a])
        != #[trigger] key(b[c]) by {
        if a == 0 {
            assert(b[c] == s[c - 1]);
        } else {
            assert(b[a] == s[a - 1]);
            assert(b[c] == s[c - 1]);
        }
    }
}

} // verus!
