//! A stable ordering of items by descending key.
//!
//! The order is computed on the keys alone and handed back as a sequence of
//! positions, so that one proof serves every kind of item.

use vstd::prelude::*;

verus! {

/// The keys of a vector as mathematical integers.
pub open spec fn ints(keys: Seq<i128>) -> Seq<int> {
    keys.map_values(|k: i128| k as int)
}

/// The positions held by a vector as mathematical integers.
pub open spec fn positions(order: Seq<usize>) -> Seq<int> {
    order.map_values(|p: usize| p as int)
}

/// Where a new key goes among positions that are already in order: behind
/// every position whose key is at least as large.
pub open spec fn insert_position(keys: Seq<int>, order: Seq<int>, key: int) -> int
    decreases order.len(),
{
    if order.len() == 0 {
        0
    } else if keys[order[0]] < key {
        0
    } else {
        1 + insert_position(keys, order.drop_first(), key)
    }
}

/// The positions of `keys`, largest key first; equal keys keep the order in
/// which they stand.
pub open spec fn descending_order(keys: Seq<int>) -> Seq<int>
    decreases keys.len(),
{
    if keys.len() == 0 {
        Seq::empty()
    } else {
        let rest = descending_order(keys.drop_last());
        rest.insert(insert_position(keys, rest, keys.last()), keys.len() - 1)
    }
}

/// `order` lists every position of `keys` once, by descending key, and keeps
/// equal keys in the order in which they stand.
pub open spec fn is_stable_descending(keys: Seq<int>, order: Seq<int>) -> bool {
    &&& order.len() == keys.len()
    &&& forall|a: int| 0 <= a < order.len() ==> 0 <= #[trigger] order[a] < keys.len()
    &&& forall|a: int, b: int|
        0 <= a < b < order.len() ==> {
            ||| keys[#[trigger] order[a]] > keys[#[trigger] order[b]]
            ||| (keys[order[a]] == keys[order[b]] && order[a] < order[b])
        }
    &&& forall|k: int| 0 <= k < keys.len() ==> order.contains(k)
}

/// The items of `items` in the order that `order` gives.
pub open spec fn pick<A>(items: Seq<A>, order: Seq<int>) -> Seq<A> {
    Seq::new(order.len(), |i: int| items[order[i]])
}

/// Filtering a sequence with one more item keeps that item exactly where the
/// predicate holds of it.
pub proof fn lemma_filter_push<A>(s: Seq<A>, a: A, pred: spec_fn(A) -> bool)
    ensures
        s.push(a).filter(pred) == if pred(a) {
            s.filter(pred).push(a)
        } else {
            s.filter(pred)
        },
{
    reveal(Seq::filter);
    assert(s.push(a).drop_last() == s);
}

/// The insert position is the first place whose key is smaller than `key`.
pub proof fn lemma_insert_position(keys: Seq<int>, order: Seq<int>, key: int, p: int)
    requires
        0 <= p <= order.len(),
        forall|j: int| 0 <= j < p ==> keys[#[trigger] order[j]] >= key,
        p < order.len() ==> keys[order[p]] < key,
    ensures
        insert_position(keys, order, key) == p,
    decreases p,
{
    if p > 0 {
        let rest = order.drop_first();
        assert(forall|j: int| 0 <= j < p - 1 ==> keys[#[trigger] rest[j]] >= key) by {
            assert forall|j: int| 0 <= j < p - 1 implies keys[#[trigger] rest[j]] >= key by {
                assert(rest[j] == order[j + 1]);
            }
        }
        lemma_insert_position(keys, rest, key, p - 1);
    }
}

/// The insert position lies within the order, with larger or equal keys
/// before it and a smaller key at it.
pub proof fn lemma_insert_position_splits(keys: Seq<int>, order: Seq<int>, key: int)
    ensures
        0 <= insert_position(keys, order, key) <= order.len(),
        forall|j: int|
            0 <= j < insert_position(keys, order, key) ==> keys[#[trigger] order[j]] >= key,
        insert_position(keys, order, key) < order.len() ==> keys[order[insert_position(
            keys,
            order,
            key,
        )]] < key,
    decreases order.len(),
{
    if order.len() > 0 && !(keys[order[0]] < key) {
        let rest = order.drop_first();
        lemma_insert_position_splits(keys, rest, key);
        let p = insert_position(keys, rest, key);
        assert forall|j: int| 0 <= j < p + 1 implies keys[#[trigger] order[j]] >= key by {
            if j > 0 {
                assert(order[j] == rest[j - 1]);
            }
        }
        if p + 1 < order.len() {
            assert(order[p + 1] == rest[p]);
        }
    }
}

/// The computed order is a stable descending order of all positions.
pub proof fn lemma_descending_order_is_stable(keys: Seq<int>)
    ensures
        is_stable_descending(keys, descending_order(keys)),
    decreases keys.len(),
{
    if keys.len() > 0 {
        let front = keys.drop_last();
        let rest = descending_order(front);
        let last = keys.len() - 1;
        lemma_descending_order_is_stable(front);
        assert forall|j: int| 0 <= j < rest.len() implies keys[#[trigger] rest[j]] == front[rest[j]] by {}
        assert(insert_position(keys, rest, keys.last()) == insert_position(front.push(keys.last()), rest, keys.last())) by {
            assert(front.push(keys.last()) == keys);
        }
        lemma_insert_position_splits(keys, rest, keys.last());
        let p = insert_position(keys, rest, keys.last());
        let order = rest.insert(p, last);
        assert(order == descending_order(keys));
        assert forall|a: int| 0 <= a < order.len() implies 0 <= #[trigger] order[a] < keys.len() by {
            if a < p {
                assert(order[a] == rest[a]);
            } else if a > p {
                assert(order[a] == rest[a - 1]);
            }
        }
        assert forall|a: int, b: int| 0 <= a < b < order.len() implies ({
            ||| keys[#[trigger] order[a]] > keys[#[trigger] order[b]]
            ||| (keys[order[a]] == keys[order[b]] && order[a] < order[b])
        }) by {
            let ra = if a < p { a } else { a - 1 };
            let rb = if b < p { b } else { b - 1 };
            if a != p {
                assert(order[a] == rest[ra]);
            }
            if b != p {
                assert(order[b] == rest[rb]);
            }
            if a != p && b != p {
                assert(0 <= ra < rb < rest.len());
            }
        }
        assert forall|k: int| 0 <= k < keys.len() implies order.contains(k) by {
            if k == last {
                assert(order[p] == k);
            } else {
                assert(rest.contains(k));
                let j = choose|j: int| 0 <= j < rest.len() && rest[j] == k;
                if j < p {
                    assert(order[j] == k);
                } else {
                    assert(order[j + 1] == k);
                }
            }
        }
    }
}

/// Orders the positions of `keys` by descending key, equal keys in the order
/// in which they stand.
pub fn order_descending(keys: &Vec<i128>) -> (order: Vec<usize>)
    ensures
        positions(order@) == descending_order(ints(keys@)),
        is_stable_descending(ints(keys@), positions(order@)),
        order.len() == keys.len(),
        forall|a: int| 0 <= a < order.len() ==> #[trigger] order[a] < keys.len(),
{
    let mut order: Vec<usize> = Vec::new();
    let mut i: usize = 0;
    proof {
        assert(ints(keys@).take(0) =~= Seq::<int>::empty());
        assert(positions(order@) =~= Seq::<int>::empty());
    }
    while i < keys.len()
        invariant
            i <= keys.len(),
            order.len() == i,
            positions(order@) == descending_order(ints(keys@).take(i as int)),
            forall|a: int| 0 <= a < order.len() ==> #[trigger] order[a] < i,
        decreases keys.len() - i,
    {
        let mut p: usize = 0;
        while p < order.len() && keys[order[p]] >= keys[i]
            invariant
                p <= order.len(),
                order.len() == i,
                i < keys.len(),
                forall|a: int| 0 <= a < order.len() ==> #[trigger] order[a] < i,
                forall|j: int| 0 <= j < p ==> keys[#[trigger] order[j] as int] >= keys[i as int],
            decreases order.len() - p,
        {
            p = p + 1;
        }
        proof {
            let all = ints(keys@);
            let front = all.take(i as int);
            let next = all.take(i + 1);
            let rest = positions(order@);
            assert(next.drop_last() == front);
            assert(next.last() == keys[i as int] as int);
            assert forall|j: int| 0 <= j < p implies next[#[trigger] rest[j]] >= next.last() by {
                assert(rest[j] == order[j] as int);
                assert(next[rest[j]] == keys[order[j] as int] as int);
            }
            if p < order.len() {
                assert(rest[p as int] == order[p as int] as int);
                assert(next[rest[p as int]] == keys[order[p as int] as int] as int);
            }
            lemma_insert_position(next, rest, next.last(), p as int);
            assert(positions(order@.insert(p as int, i)) =~= rest.insert(p as int, i as int));
        }
        order.insert(p, i);
        i = i + 1;
    }
    proof {
        assert(ints(keys@).take(i as int) == ints(keys@));
        lemma_descending_order_is_stable(ints(keys@));
    }
    order
}

} // verus!
