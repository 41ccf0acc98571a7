//! Strict local extrema of the difference curve.
use vstd::prelude::*;
use crate::order::{float_eq, float_lt, less_than, lemma_order_basics};

verus! {

/// Whether sample `i` is an interior strict local minimum (`find_minima`) or
/// strict local maximum of `d`.
pub open spec fn is_candidate(d: Seq<u64>, i: int, find_minima: bool) -> bool {
    &&& 1 <= i < d.len() - 1
    &&& if find_minima {
        float_lt(d[i], d[i - 1]) && float_lt(d[i], d[i + 1])
    } else {
        float_lt(d[i - 1], d[i]) && float_lt(d[i + 1], d[i])
    }
}

/// `r` lists, in strictly ascending order, exactly the candidates of `d`
/// below `bound`.
pub open spec fn lists_candidates(r: Seq<usize>, d: Seq<u64>, find_minima: bool, bound: int) -> bool {
    &&& forall|a: int, b: int| 0 <= a < b < r.len() ==> r[a] < r[b]
    &&& forall|k: int| 0 <= k < r.len() ==> r[k] < bound && is_candidate(d, r[k] as int, find_minima)
    &&& forall|i: int| 0 <= i < bound && #[trigger] is_candidate(d, i, find_minima) ==> r.contains(i as usize)
}

/// The indices of the strict local minima (`find_minima`) or strict local
/// maxima of the difference curve `d`, in ascending order. The first and
/// last samples are never candidates, nor is a sample equal to one of its
/// neighbours.
pub fn find_candidate_indices(d: &Vec<u64>, find_minima: bool) -> (r: Vec<usize>)
    ensures
        lists_candidates(r@, d@, find_minima, d@.len() as int),
        forall|k: int|
            0 <= k < r@.len() ==> 0 < r@[k] < d@.len() - 1 && !float_eq(d@[r@[k] - 1], d@[r@[k] as int])
                && !float_eq(d@[r@[k] + 1], d@[r@[k] as int]),
{
    let n = d.len();
    let mut r: Vec<usize> = Vec::new();
    let last: usize = if n == 0 { 0 } else { n - 1 };
    let mut i: usize = 1;
    while i < last
        invariant
            n == d@.len(),
            last == if n == 0 { 0 } else { n - 1 },
            1 <= i,
            i <= last || last == 0,
            lists_candidates(r@, d@, find_minima, i as int),
        decreases last - i,
    {
        let ghost before = r@;
        let prev = d[i - 1];
        let cur = d[i];
        let next = d[i + 1];
        let hit = if find_minima {
            less_than(cur, prev) && less_than(cur, next)
        } else {
            less_than(prev, cur) && less_than(next, cur)
        };
        if hit {
            r.push(i);
        }
        assert forall|j: int| 0 <= j < i + 1 && #[trigger] is_candidate(d@, j, find_minima) implies r@.contains(
            j as usize,
        ) by {
            if j < i {
                let k = choose|k: int| 0 <= k < before.len() && before[k] == j as usize;
                assert(r@[k] == j as usize);
            } else {
                assert(r@[r@.len() - 1] == i);
            }
        }
        i = i + 1;
    }
    assert forall|k: int| 0 <= k < r@.len() implies 0 < r@[k] < d@.len() - 1 && !float_eq(
        d@[r@[k] - 1],
        d@[r@[k] as int],
    ) && !float_eq(d@[r@[k] + 1], d@[r@[k] as int]) by {
        let c = r@[k] as int;
        lemma_order_basics(d@[c], d@[c - 1]);
        lemma_order_basics(d@[c - 1], d@[c]);
        lemma_order_basics(d@[c], d@[c + 1]);
        lemma_order_basics(d@[c + 1], d@[c]);
    }
    r
}

/// A difference curve that never falls from one sample to the next, or
/// never rises, has no strict local minimum and no strict local maximum, so
/// no candidate of either kind is listed for it.
pub proof fn lemma_monotone_has_no_candidates(d: Seq<u64>, find_minima: bool, r: Seq<usize>)
    requires
        (forall|i: int| 0 <= i < d.len() - 1 ==> !float_lt(#[trigger] d[i + 1], d[i]))
            || (forall|i: int| 0 <= i < d.len() - 1 ==> !float_lt(d[i], #[trigger] d[i + 1])),
        lists_candidates(r, d, find_minima, d.len() as int),
    ensures
        forall|i: int| !is_candidate(d, i, find_minima),
        r.len() == 0,
{
    assert forall|i: int| !is_candidate(d, i, find_minima) by {
        if 1 <= i < d.len() - 1 {
            let p = i - 1;
            assert(d[p + 1] == d[i]);
        }
    }
    if r.len() > 0 {
        assert(is_candidate(d, r[0] as int, find_minima));
    }
}

} // verus!
