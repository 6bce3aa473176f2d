//! Lists of key and value pairs, seen as maps.

use vstd::prelude::*;

verus! {

/// No two pairs have one key.
pub open spec fn unique_keys<K, V>(pairs: Seq<(K, V)>) -> bool {
    forall|i: int, j: int| 0 <= i < j < pairs.len() ==> pairs[i].0 != pairs[j].0
}

/// `key` is the key of the pair at `i`.
pub open spec fn key_at<K, V>(pairs: Seq<(K, V)>, key: K, i: int) -> bool {
    0 <= i < pairs.len() && pairs[i].0 == key
}

/// Some pair has the key `key`.
pub open spec fn has_key<K, V>(pairs: Seq<(K, V)>, key: K) -> bool {
    exists|i: int| key_at(pairs, key, i)
}

/// The map that takes each key of `pairs` to the value beside it.
pub open spec fn as_map<K, V>(pairs: Seq<(K, V)>) -> Map<K, V> {
    Map::new(
        |key: K| has_key(pairs, key),
        |key: K| pairs[choose|i: int| key_at(pairs, key, i)].1,
    )
}

pub proof fn lemma_entry<K, V>(pairs: Seq<(K, V)>, i: int)
    requires
        unique_keys(pairs),
        0 <= i < pairs.len(),
    ensures
        as_map(pairs).contains_key(pairs[i].0),
        as_map(pairs)[pairs[i].0] == pairs[i].1,
{
    let key = pairs[i].0;
    assert(key_at(pairs, key, i));
    let k = choose|k: int| key_at(pairs, key, k);
    assert(key_at(pairs, key, k));
    assert(k == i);
}

pub proof fn lemma_push<K, V>(pairs: Seq<(K, V)>, key: K, value: V)
    requires
        unique_keys(pairs),
        !has_key(pairs, key),
    ensures
        unique_keys(pairs.push((key, value))),
        as_map(pairs.push((key, value))) == as_map(pairs).insert(key, value),
{
    let pushed = pairs.push((key, value));
    assert forall|i: int, j: int| 0 <= i < j < pushed.len() implies pushed[i].0 != pushed[j].0 by {
        if j == pairs.len() {
            if pushed[i].0 == key {
                assert(key_at(pairs, key, i));
            }
        }
    }
    let left = as_map(pushed);
    let right = as_map(pairs).insert(key, value);
    assert forall|k: K| left.contains_key(k) <==> right.contains_key(k) by {
        if left.contains_key(k) {
            let i = choose|i: int| key_at(pushed, k, i);
            if i < pairs.len() {
                assert(key_at(pairs, k, i));
            }
        }
        if has_key(pairs, k) {
            let i = choose|i: int| key_at(pairs, k, i);
            assert(key_at(pushed, k, i));
        }
        if k == key {
            assert(key_at(pushed, k, pairs.len() as int));
        }
    }
    assert forall|k: K| left.contains_key(k) implies left[k] == right[k] by {
        let i = choose|i: int| key_at(pushed, k, i);
        lemma_entry(pushed, i);
        if i < pairs.len() {
            lemma_entry(pairs, i);
            assert(key_at(pairs, k, i));
        }
    }
    assert(left =~= right);
}

pub proof fn lemma_remove<K, V>(pairs: Seq<(K, V)>, at: int)
    requires
        unique_keys(pairs),
        0 <= at < pairs.len(),
    ensures
        unique_keys(pairs.remove(at)),
        as_map(pairs.remove(at)) == as_map(pairs).remove(pairs[at].0),
        !has_key(pairs.remove(at), pairs[at].0),
{
    let key = pairs[at].0;
    let rest = pairs.remove(at);
    assert forall|i: int| 0 <= i < rest.len() implies rest[i] == pairs[if i < at {
        i
    } else {
        i + 1
    }] by {}
    if has_key(rest, key) {
        let i = choose|i: int| key_at(rest, key, i);
        assert(pairs[if i < at { i } else { i + 1 }].0 == key);
    }
    let left = as_map(rest);
    let right = as_map(pairs).remove(key);
    assert forall|k: K| left.contains_key(k) <==> right.contains_key(k) by {
        if left.contains_key(k) {
            let i = choose|i: int| key_at(rest, k, i);
            assert(key_at(pairs, k, if i < at { i } else { i + 1 }));
        }
        if right.contains_key(k) {
            let i = choose|i: int| key_at(pairs, k, i);
            assert(i != at);
            assert(key_at(rest, k, if i < at { i } else { i - 1 }));
        }
    }
    assert forall|k: K| left.contains_key(k) implies left[k] == right[k] by {
        let i = choose|i: int| key_at(rest, k, i);
        lemma_entry(rest, i);
        lemma_entry(pairs, if i < at { i } else { i + 1 });
    }
    assert(left =~= right);
}

pub proof fn lemma_len<K, V>(pairs: Seq<(K, V)>)
    requires
        unique_keys(pairs),
    ensures
        as_map(pairs).dom().finite(),
        as_map(pairs).dom().len() == pairs.len(),
    decreases pairs.len(),
{
    if pairs.len() == 0 {
        assert(as_map(pairs).dom() =~= Set::empty());
    } else {
        let rest = pairs.drop_last();
        let (key, value) = pairs.last();
        assert(!has_key(rest, key)) by {
            if has_key(rest, key) {
                let i = choose|i: int| key_at(rest, key, i);
                assert(pairs[i].0 == pairs[pairs.len() - 1].0);
            }
        }
        lemma_len(rest);
        lemma_push(rest, key, value);
        assert(rest.push((key, value)) =~= pairs);
        assert(!as_map(rest).contains_key(key));
    }
}

} // verus!
