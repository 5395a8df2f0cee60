//! Stable ordering by an integer key: the order that a stable sort by that
//! key gives, as a sequence of positions into the input.
use vstd::prelude::*;
use vstd::set_lib::{lemma_int_range, lemma_subset_equality, set_int_range};

verus! {

broadcast use vstd::seq_lib::group_seq_properties;

/// Position `a` comes before position `b`: a smaller key, or an equal key and
/// an earlier position (ties keep their input order).
pub open spec fn precedes(keys: Seq<i64>, a: int, b: int) -> bool {
    keys[a] < keys[b] || (keys[a] == keys[b] && a < b)
}

/// `order` lists positions of `keys`, one per key, in stable key order.
pub open spec fn is_stable_order(keys: Seq<i64>, order: Seq<usize>) -> bool {
    &&& order.len() == keys.len()
    &&& forall|i: int| 0 <= i < order.len() ==> (#[trigger] order[i]) < keys.len()
    &&& forall|i: int, j: int|
        0 <= i < j < order.len() ==> precedes(keys, #[trigger] order[i] as int, #[trigger] order[j] as int)
}

/// The stable order of `keys` (there is exactly one, see
/// `lemma_stable_order_unique`).
pub open spec fn stable_order(keys: Seq<i64>) -> Seq<usize> {
    choose|order: Seq<usize>| is_stable_order(keys, order)
}

/// A stable order lists every position of the keys.
pub proof fn lemma_stable_order_covers(keys: Seq<i64>, order: Seq<usize>, x: int)
    requires
        is_stable_order(keys, order),
        0 <= x < keys.len(),
    ensures
        exists|k: int| 0 <= k < order.len() && order[k] == x,
{
    let ints = order.map_values(|p: usize| p as int);
    assert(ints.no_duplicates()) by {
        assert forall|i: int, j: int| 0 <= i < ints.len() && 0 <= j < ints.len() && i != j implies ints[i] != ints[j] by {
            if i < j {
                assert(precedes(keys, order[i] as int, order[j] as int));
            } else {
                assert(precedes(keys, order[j] as int, order[i] as int));
            }
        }
    }
    ints.unique_seq_to_set();
    lemma_int_range(0, keys.len() as int);
    assert(ints.to_set().subset_of(set_int_range(0, keys.len() as int))) by {
        assert forall|v: int| ints.to_set().contains(v) implies set_int_range(0, keys.len() as int).contains(v) by {
            let k = choose|k: int| 0 <= k < ints.len() && ints[k] == v;
            assert(order[k] < keys.len());
        }
    }
    lemma_subset_equality(ints.to_set(), set_int_range(0, keys.len() as int));
    assert(set_int_range(0, keys.len() as int).contains(x));
    assert(ints.to_set().contains(x));
    let k = choose|k: int| 0 <= k < ints.len() && ints[k] == x;
    assert(order[k] == x);
}

proof fn lemma_orders_agree_up_to(keys: Seq<i64>, o1: Seq<usize>, o2: Seq<usize>, i: int)
    requires
        is_stable_order(keys, o1),
        is_stable_order(keys, o2),
        0 <= i < o1.len(),
    ensures
        forall|j: int| 0 <= j <= i ==> o1[j] == o2[j],
    decreases i,
{
    if i > 0 {
        lemma_orders_agree_up_to(keys, o1, o2, i - 1);
    }
    let a = o1[i];
    let b = o2[i];
    if a != b {
        lemma_stable_order_covers(keys, o2, a as int);
        lemma_stable_order_covers(keys, o1, b as int);
        let k = choose|k: int| 0 <= k < o2.len() && o2[k] == a;
        let m = choose|m: int| 0 <= m < o1.len() && o1[m] == b;
        if k < i {
            assert(o1[k] == o2[k]);
            assert(precedes(keys, o1[k] as int, o1[i] as int));
        }
        if m < i {
            assert(o1[m] == o2[m]);
            assert(precedes(keys, o2[m] as int, o2[i] as int));
        }
        assert(k != i);
        assert(m != i);
        assert(precedes(keys, o2[i] as int, o2[k] as int));
        assert(precedes(keys, o1[i] as int, o1[m] as int));
        assert(false);
    }
}

/// A sequence of keys has exactly one stable order.
pub proof fn lemma_stable_order_unique(keys: Seq<i64>, o1: Seq<usize>, o2: Seq<usize>)
    requires
        is_stable_order(keys, o1),
        is_stable_order(keys, o2),
    ensures
        o1 == o2,
{
    if o1.len() > 0 {
        lemma_orders_agree_up_to(keys, o1, o2, o1.len() - 1);
    }
    assert(o1 =~= o2);
}

/// The first place at or after `q` in `order` whose key exceeds `k` (the
/// length of `order` when there is none).
pub open spec fn first_above(keys: Seq<i64>, order: Seq<usize>, k: i64, q: int) -> int
    decreases order.len() - q,
{
    if q < 0 || q >= order.len() {
        order.len() as int
    } else if keys[order[q] as int] > k {
        q
    } else {
        first_above(keys, order, k, q + 1)
    }
}

proof fn lemma_first_above(keys: Seq<i64>, order: Seq<usize>, k: i64, q: int)
    requires
        0 <= q <= order.len(),
        forall|i: int| 0 <= i < order.len() ==> (#[trigger] order[i]) < keys.len(),
    ensures
        q <= first_above(keys, order, k, q) <= order.len(),
        forall|r: int| q <= r < first_above(keys, order, k, q) ==> keys[#[trigger] order[r] as int] <= k,
        first_above(keys, order, k, q) < order.len() ==> keys[order[first_above(keys, order, k, q)] as int] > k,
    decreases order.len() - q,
{
    if q < order.len() && keys[order[q] as int] <= k {
        lemma_first_above(keys, order, k, q + 1);
    }
}

/// Every sequence of keys that positions can index has a stable order.
pub proof fn lemma_stable_order_exists(keys: Seq<i64>)
    requires
        keys.len() <= usize::MAX,
    ensures
        is_stable_order(keys, stable_order(keys)),
    decreases keys.len(),
{
    if keys.len() == 0 {
        assert(is_stable_order(keys, Seq::<usize>::empty()));
    } else {
        let n = keys.len() - 1;
        let head = keys.drop_last();
        lemma_stable_order_exists(head);
        let prev = stable_order(head);
        let k = keys[n];
        assert forall|a: int, b: int| 0 <= a < n && 0 <= b < n implies precedes(keys, a, b) == precedes(head, a, b) by {
            assert(keys[a] == head[a] && keys[b] == head[b]);
        }
        assert forall|i: int| 0 <= i < prev.len() implies (#[trigger] prev[i]) < keys.len() by {
            assert(prev[i] < head.len());
        }
        lemma_first_above(keys, prev, k, 0);
        let p = first_above(keys, prev, k, 0);
        assert forall|r: int| p <= r < prev.len() implies keys[#[trigger] prev[r] as int] > k by {
            if r > p {
                assert(precedes(head, prev[p] as int, prev[r] as int));
            }
        }
        let order = prev.subrange(0, p).push(n as usize) + prev.subrange(p, prev.len() as int);
        assert(order.len() == keys.len());
        assert forall|q: int| 0 <= q < order.len() implies (#[trigger] order[q]) < keys.len() by {
            if q < p {
                assert(order[q] == prev[q]);
            } else if q > p {
                assert(order[q] == prev[q - 1]);
            }
        }
        assert forall|q: int, r: int|
            0 <= q < r < order.len() implies precedes(keys, #[trigger] order[q] as int, #[trigger] order[r] as int) by {
            if r < p {
                assert(order[q] == prev[q] && order[r] == prev[r]);
                assert(precedes(head, prev[q] as int, prev[r] as int));
            } else if r == p {
                assert(order[q] == prev[q]);
                assert(keys[prev[q] as int] <= k);
                assert(prev[q] < n);
            } else if q < p {
                assert(order[q] == prev[q] && order[r] == prev[r - 1]);
                assert(precedes(head, prev[q] as int, prev[r - 1] as int));
            } else if q == p {
                assert(order[r] == prev[r - 1]);
                assert(keys[prev[r - 1] as int] > k);
            } else {
                assert(order[q] == prev[q - 1] && order[r] == prev[r - 1]);
                assert(precedes(head, prev[q - 1] as int, prev[r - 1] as int));
            }
        }
        assert(is_stable_order(keys, order));
    }
}

/// The positions of `keys` in stable key order (the order of a stable sort).
pub fn stable_order_by_key(keys: &Vec<i64>) -> (order: Vec<usize>)
    ensures
        is_stable_order(keys@, order@),
        order@ == stable_order(keys@),
{
    let n = keys.len();
    let mut order: Vec<usize> = Vec::new();
    let mut i: usize = 0;
    while i < n
        invariant
            n == keys@.len(),
            i <= n,
            order@.len() == i,
            forall|q: int| 0 <= q < order@.len() ==> (#[trigger] order@[q]) < i,
            forall|q: int, r: int|
                0 <= q < r < order@.len() ==> precedes(keys@, #[trigger] order@[q] as int, #[trigger] order@[r] as int),
        decreases n - i,
    {
        let mut p = order.len();
        while p > 0 && keys[order[p - 1]] > keys[i]
            invariant
                n == keys@.len(),
                i < n,
                order@.len() == i,
                p <= order@.len(),
                forall|q: int| 0 <= q < order@.len() ==> (#[trigger] order@[q]) < i,
                forall|q: int| p <= q < order@.len() ==> keys@[#[trigger] order@[q] as int] > keys@[i as int],
            decreases p,
        {
            p = p - 1;
        }
        let ghost old_order = order@;
        order.insert(p, i);
        proof {
            assert(order@ =~= old_order.subrange(0, p as int).push(i) + old_order.subrange(p as int, old_order.len() as int));
            assert forall|q: int| 0 <= q < order@.len() implies (#[trigger] order@[q]) < i + 1 by {
                if q < p {
                    assert(order@[q] == old_order[q]);
                } else if q > p {
                    assert(order@[q] == old_order[q - 1]);
                }
            }
            assert forall|q: int, r: int|
                0 <= q < r < order@.len() implies precedes(keys@, #[trigger] order@[q] as int, #[trigger] order@[r] as int) by {
                if r < p {
                    assert(order@[q] == old_order[q]);
                    assert(order@[r] == old_order[r]);
                } else if r == p {
                    assert(order@[q] == old_order[q]);
                    assert(keys@[old_order[p - 1] as int] <= keys@[i as int]);
                    if q < p - 1 {
                        assert(precedes(keys@, old_order[q] as int, old_order[p - 1] as int));
                    }
                } else if q < p {
                    assert(order@[q] == old_order[q]);
                    assert(order@[r] == old_order[r - 1]);
                } else if q == p {
                    assert(order@[r] == old_order[r - 1]);
                } else {
                    assert(order@[q] == old_order[q - 1]);
                    assert(order@[r] == old_order[r - 1]);
                }
            }
        }
        i = i + 1;
    }
    proof {
        assert(is_stable_order(keys@, order@));
        lemma_stable_order_unique(keys@, order@, stable_order(keys@));
    }
    order
}

} // verus!
