//! Grouping and indexing of keyed rows, as the data loaders do with the rows that
//! a batched query returns.
use vstd::prelude::*;
use std::collections::HashMap;

use crate::models::Duplicate;

verus! {

broadcast use vstd::std_specs::hash::group_hash_axioms;

/// The values of the rows with key `k`, in the order of the rows.
pub open spec fn group_of<T>(rows: Seq<(u128, T)>, k: u128) -> Seq<T>
    decreases rows.len(),
{
    if rows.len() == 0 {
        Seq::empty()
    } else {
        let rest = group_of(rows.drop_last(), k);
        if rows.last().0 == k {
            rest.push(rows.last().1)
        } else {
            rest
        }
    }
}

/// The value of the last row with key `k`, if there is one.
pub open spec fn last_with_key<T>(rows: Seq<(u128, T)>, k: u128) -> Option<T>
    decreases rows.len(),
{
    if rows.len() == 0 {
        None
    } else if rows.last().0 == k {
        Some(rows.last().1)
    } else {
        last_with_key(rows.drop_last(), k)
    }
}

/// A map from each key that occurs among the rows to the values of its rows, in order.
pub fn group_by_key<T>(rows: Vec<(u128, T)>) -> (m: HashMap<u128, Vec<T>>)
    ensures
        forall|k: u128| #[trigger] m@.contains_key(k) <==> group_of(rows@, k).len() > 0,
        forall|k: u128| #[trigger] m@.contains_key(k) ==> m@[k]@ == group_of(rows@, k),
{
    let ghost all = rows@;
    let mut m: HashMap<u128, Vec<T>> = HashMap::new();
    for row in it: rows.into_iter()
        invariant
            it.seq() == all,
            forall|k: u128| #[trigger] m@.contains_key(k) <==> group_of(all.take(it.index()), k).len() > 0,
            forall|k: u128| #[trigger] m@.contains_key(k) ==> m@[k]@ == group_of(all.take(it.index()), k),
    {
        let ghost i = it.index();
        let (k, v) = row;
        let mut g: Vec<T> = match m.remove(&k) {
            Some(g) => g,
            None => Vec::new(),
        };
        g.push(v);
        m.insert(k, g);
        proof {
            let pre = all.take(i);
            let post = all.take(i + 1);
            assert(post.drop_last() =~= pre);
            assert(post.last() == (k, v));
            assert forall|j: u128| #[trigger] m@.contains_key(j) <==> group_of(post, j).len() > 0 by {
                assert(group_of(post, j) == if post.last().0 == j { group_of(pre, j).push(post.last().1) } else { group_of(pre, j) });
            }
            assert forall|j: u128| #[trigger] m@.contains_key(j) implies m@[j]@ == group_of(post, j) by {
                assert(group_of(post, j) == if post.last().0 == j { group_of(pre, j).push(post.last().1) } else { group_of(pre, j) });
            }
        }
    }
    proof {
        assert(all.take(all.len() as int) =~= all);
    }
    m
}


/// A map from each key that occurs among the rows to the value of its last row
/// (as collecting the rows into a map keeps the last value inserted for a key).
pub fn index_by_key<T>(rows: Vec<(u128, T)>) -> (m: HashMap<u128, T>)
    ensures
        forall|k: u128| #[trigger] m@.contains_key(k) <==> last_with_key(rows@, k) is Some,
        forall|k: u128| #[trigger] m@.contains_key(k) ==> m@[k] == last_with_key(rows@, k)->0,
{
    let ghost all = rows@;
    let mut m: HashMap<u128, T> = HashMap::new();
    for row in it: rows.into_iter()
        invariant
            it.seq() == all,
            forall|k: u128| #[trigger] m@.contains_key(k) <==> last_with_key(all.take(it.index()), k) is Some,
            forall|k: u128| #[trigger] m@.contains_key(k) ==> m@[k] == last_with_key(all.take(it.index()), k)->0,
    {
        let ghost i = it.index();
        let (k, v) = row;
        m.insert(k, v);
        proof {
            let pre = all.take(i);
            let post = all.take(i + 1);
            assert(post.drop_last() =~= pre);
            assert(post.last() == (k, v));
            assert forall|j: u128| #[trigger] m@.contains_key(j) <==> last_with_key(post, j) is Some by {
                assert(last_with_key(post, j) == if post.last().0 == j { Some(post.last().1) } else { last_with_key(pre, j) });
            }
            assert forall|j: u128| #[trigger] m@.contains_key(j) implies m@[j] == last_with_key(post, j)->0 by {
                assert(last_with_key(post, j) == if post.last().0 == j { Some(post.last().1) } else { last_with_key(pre, j) });
            }
        }
    }
    proof {
        assert(all.take(all.len() as int) =~= all);
    }
    m
}

/// An exact copy of a vector.
pub fn copy_vec<T: Duplicate>(v: &Vec<T>) -> (r: Vec<T>)
    ensures
        r@ == v@,
{
    let mut r: Vec<T> = Vec::new();
    let n = v.len();
    for i in 0..n
        invariant
            n == v@.len(),
            r@ == v@.take(i as int),
    {
        r.push(v[i].duplicate());
        assert(r@ =~= v@.take(i + 1));
    }
    assert(v@.take(n as int) =~= v@);
    r
}

/// What a map of groups holds for a key: its group, or nothing.
pub open spec fn group_or_empty<T>(groups: Map<u128, Vec<T>>, k: u128) -> Seq<T> {
    if groups.contains_key(k) {
        groups[k]@
    } else {
        Seq::empty()
    }
}

/// What a map of single values holds for a key: its value, or nothing.
pub open spec fn one_or_empty<T>(index: Map<u128, T>, k: u128) -> Seq<T> {
    if index.contains_key(k) {
        seq![index[k]]
    } else {
        Seq::empty()
    }
}

/// For each `(id, key)`, the key with (a copy of) the group of `id`, or an empty
/// list where `id` has none.
pub fn pick_groups<K: Copy, T: Duplicate>(keys: &[(u128, K)], groups: &HashMap<u128, Vec<T>>) -> (out: Vec<(K, Vec<T>)>)
    ensures
        out@.len() == keys@.len(),
        forall|i: int| 0 <= i < keys@.len() ==> (#[trigger] out@[i]).0 == keys@[i].1,
        forall|i: int| 0 <= i < keys@.len() ==> (#[trigger] out@[i]).1@ == group_or_empty(groups@, keys@[i].0),
{
    let mut out: Vec<(K, Vec<T>)> = Vec::new();
    let n = keys.len();
    for i in 0..n
        invariant
            n == keys@.len(),
            out@.len() == i,
            forall|j: int| 0 <= j < i ==> (#[trigger] out@[j]).0 == keys@[j].1,
            forall|j: int| 0 <= j < i ==> (#[trigger] out@[j]).1@ == group_or_empty(groups@, keys@[j].0),
    {
        let (id, key) = keys[i];
        let matched: Vec<T> = match groups.get(&id) {
            Some(g) => copy_vec(g),
            None => Vec::new(),
        };
        out.push((key, matched));
    }
    out
}

/// For each `(id, key)`, the key with (a copy of) the value of `id` as a list of
/// at most one element.
pub fn pick_one<K: Copy, T: Duplicate>(keys: &[(u128, K)], index: &HashMap<u128, T>) -> (out: Vec<(K, Vec<T>)>)
    ensures
        out@.len() == keys@.len(),
        forall|i: int| 0 <= i < keys@.len() ==> (#[trigger] out@[i]).0 == keys@[i].1,
        forall|i: int| 0 <= i < keys@.len() ==> (#[trigger] out@[i]).1@ == one_or_empty(index@, keys@[i].0),
{
    let mut out: Vec<(K, Vec<T>)> = Vec::new();
    let n = keys.len();
    for i in 0..n
        invariant
            n == keys@.len(),
            out@.len() == i,
            forall|j: int| 0 <= j < i ==> (#[trigger] out@[j]).0 == keys@[j].1,
            forall|j: int| 0 <= j < i ==> (#[trigger] out@[j]).1@ == one_or_empty(index@, keys@[j].0),
    {
        let (id, key) = keys[i];
        let mut matched: Vec<T> = Vec::new();
        match index.get(&id) {
            Some(v) => {
                matched.push(v.duplicate());
            },
            None => {},
        }
        assert(matched@ =~= one_or_empty(index@, id));
        out.push((key, matched));
    }
    out
}

} // verus!
