//! Ordering by a small key, keeping the order of equals.

use vstd::prelude::*;

verus! {

/// Where a new position with key `key` goes into `order`: behind the last
/// position whose key is not larger.
pub open spec fn insertion_point(keys: Seq<u8>, order: Seq<int>, key: u8) -> int
    decreases order.len(),
{
    if order.len() == 0 {
        0
    } else if keys[order.last()] <= key {
        order.len() as int
    } else {
        insertion_point(keys, order.drop_last(), key)
    }
}

/// The first `n` positions of `keys`, ordered by key; positions with equal
/// keys stay in their order.
pub open spec fn stable_order(keys: Seq<u8>, n: int) -> Seq<int>
    decreases n,
{
    if n <= 0 {
        Seq::empty()
    } else {
        let before = stable_order(keys, n - 1);
        before.insert(insertion_point(keys, before, keys[n - 1]), n - 1)
    }
}

/// Whether `order` lists positions below `n` of `keys` such that each stands
/// before every one with a larger key, and before every later position with
/// the same key.
pub open spec fn is_stably_ordered(keys: Seq<u8>, order: Seq<int>, n: int) -> bool {
    &&& forall|p: int| 0 <= p < order.len() ==> 0 <= #[trigger] order[p] < n
    &&& forall|p: int, q: int|
        0 <= p < q < order.len() ==> keys[#[trigger] order[p]] < keys[#[trigger] order[q]] || (
        keys[order[p]] == keys[order[q]] && order[p] < order[q])
}

/// The insertion point lies within `order`; the keys before it are not
/// larger than `key` and those from it on are larger.
pub proof fn lemma_insertion_point(keys: Seq<u8>, order: Seq<int>, key: u8, n: int)
    requires
        is_stably_ordered(keys, order, n),
        n <= keys.len(),
    ensures
        0 <= insertion_point(keys, order, key) <= order.len(),
        forall|p: int|
            0 <= p < insertion_point(keys, order, key) ==> keys[#[trigger] order[p]] <= key,
        forall|p: int|
            insertion_point(keys, order, key) <= p < order.len() ==> keys[#[trigger] order[p]]
                > key,
    decreases order.len(),
{
    if order.len() > 0 {
        if keys[order.last()] <= key {
            assert forall|p: int| 0 <= p < order.len() implies keys[#[trigger] order[p]] <= key by {
                if p < order.len() - 1 {
                    assert(keys[order[p]] <= keys[order[order.len() - 1]]);
                }
            }
        } else {
            let shorter = order.drop_last();
            assert(is_stably_ordered(keys, shorter, n)) by {
                assert forall|p: int, q: int| 0 <= p < q < shorter.len() implies keys[#[trigger] shorter[p]]
                    < keys[#[trigger] shorter[q]] || (keys[shorter[p]] == keys[shorter[q]]
                    && shorter[p] < shorter[q]) by {
                    assert(shorter[p] == order[p] && shorter[q] == order[q]);
                }
            }
            lemma_insertion_point(keys, shorter, key, n);
            let at = insertion_point(keys, shorter, key);
            assert forall|p: int| at <= p < order.len() implies keys[#[trigger] order[p]] > key by {
                if p < order.len() - 1 {
                    assert(order[p] == shorter[p]);
                }
            }
            assert forall|p: int| 0 <= p < at implies keys[#[trigger] order[p]] <= key by {
                assert(order[p] == shorter[p]);
            }
        }
    }
}

/// [`stable_order`] lists each of the first `n` positions once, by key, and
/// positions with equal keys in their order.
pub proof fn lemma_stable_order(keys: Seq<u8>, n: int)
    requires
        0 <= n <= keys.len(),
    ensures
        stable_order(keys, n).len() == n,
        is_stably_ordered(keys, stable_order(keys, n), n),
        forall|i: int| 0 <= i < n ==> stable_order(keys, n).contains(i),
    decreases n,
{
    if n > 0 {
        lemma_stable_order(keys, n - 1);
        let before = stable_order(keys, n - 1);
        assert(is_stably_ordered(keys, before, n)) by {
            assert forall|p: int| 0 <= p < before.len() implies 0 <= #[trigger] before[p] < n by {
                assert(0 <= before[p] < n - 1);
            }
        }
        lemma_insertion_point(keys, before, keys[n - 1], n);
        let at = insertion_point(keys, before, keys[n - 1]);
        let after = before.insert(at, n - 1);
        assert forall|p: int| 0 <= p < after.len() implies 0 <= #[trigger] after[p] < n by {
            if p < at {
                assert(after[p] == before[p]);
            } else if p > at {
                assert(after[p] == before[p - 1]);
            }
        }
        assert forall|p: int, q: int| 0 <= p < q < after.len() implies keys[#[trigger] after[p]]
            < keys[#[trigger] after[q]] || (keys[after[p]] == keys[after[q]] && after[p]
            < after[q]) by {
            if q < at {
                assert(after[p] == before[p] && after[q] == before[q]);
            } else if q == at {
                assert(after[p] == before[p]);
                assert(0 <= before[p] < n - 1);
            } else if p < at {
                assert(after[p] == before[p] && after[q] == before[q - 1]);
            } else if p == at {
                assert(after[q] == before[q - 1]);
            } else {
                assert(after[p] == before[p - 1] && after[q] == before[q - 1]);
            }
        }
        assert forall|i: int| 0 <= i < n implies after.contains(i) by {
            if i == n - 1 {
                assert(after[at] == i);
            } else {
                assert(before.contains(i));
                let k = choose|k: int| 0 <= k < before.len() && before[k] == i;
                if k < at {
                    assert(after[k] == i);
                } else {
                    assert(after[k + 1] == i);
                }
            }
        }
    }
}

/// The positions held by `order`, as integers.
pub open spec fn positions(order: Seq<usize>) -> Seq<int> {
    order.map_values(|i: usize| i as int)
}

/// Orders the positions of `keys` by key; positions with equal keys stay in
/// their order.
pub fn order_by_key(keys: &Vec<u8>) -> (r: Vec<usize>)
    ensures
        positions(r@) == stable_order(keys@, keys.len() as int),
        r.len() == keys.len(),
        forall|p: int| 0 <= p < r.len() ==> r[p] < keys.len(),
{
    let mut out: Vec<usize> = Vec::new();
    let mut n: usize = 0;
    while n < keys.len()
        invariant
            n <= keys.len(),
            positions(out@) == stable_order(keys@, n as int),
            out.len() == n,
        decreases keys.len() - n,
    {
        proof {
            lemma_stable_order(keys@, n as int);
        }
        let ghost before = positions(out@);
        let key = keys[n];
        let mut at: usize = out.len();
        assert(before.take(at as int) =~= before);
        while at > 0 && keys[out[at - 1]] > key
            invariant
                at <= out.len(),
                out.len() == n < keys.len(),
                before == positions(out@),
                is_stably_ordered(keys@, before, n as int),
                insertion_point(keys@, before, key) == insertion_point(
                    keys@,
                    before.take(at as int),
                    key,
                ),
            decreases at,
        {
            assert(before[at - 1] == out@[at - 1]);
            assert(before.take(at as int).drop_last() =~= before.take(at - 1));
            at -= 1;
        }
        proof {
            assert(before.take(out.len() as int) =~= before);
            if at > 0 {
                assert(before.take(at as int).last() == out@[at - 1]);
            }
            assert(insertion_point(keys@, before, key) == at);
        }
        out.insert(at, n);
        assert(positions(out@) =~= before.insert(at as int, n as int));
        n += 1;
    }
    proof {
        lemma_stable_order(keys@, keys.len() as int);
        assert forall|p: int| 0 <= p < out.len() implies out[p] < keys.len() by {
            assert(positions(out@)[p] == out[p]);
        }
    }
    out
}

} // verus!
