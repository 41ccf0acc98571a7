//! Smallest and largest value of a column, as the normalizer and the
//! orientation helper need them.
use vstd::prelude::*;
use crate::order::{float_lt, is_nan, less_than, NEGATIVE_INFINITY, POSITIVE_INFINITY};

verus! {

/// `m` is the least non-NaN value of `v`, or positive infinity where there
/// is none: it is no NaN, no value of `v` lies below it, and it is one of the
/// values of `v` or positive infinity.
pub open spec fn is_column_min(m: u64, v: Seq<u64>) -> bool {
    &&& !is_nan(m)
    &&& forall|i: int| 0 <= i < v.len() ==> !float_lt(#[trigger] v[i], m)
    &&& m == POSITIVE_INFINITY || exists|i: int| 0 <= i < v.len() && v[i] == m
}

/// `m` is the greatest non-NaN value of `v`, or negative infinity where there
/// is none.
pub open spec fn is_column_max(m: u64, v: Seq<u64>) -> bool {
    &&& !is_nan(m)
    &&& forall|i: int| 0 <= i < v.len() ==> !float_lt(m, #[trigger] v[i])
    &&& m == NEGATIVE_INFINITY || exists|i: int| 0 <= i < v.len() && v[i] == m
}

/// The least value of a column, folded from positive infinity; NaNs are
/// passed over.
pub fn column_min(v: &Vec<u64>) -> (r: u64)
    ensures
        is_column_min(r, v@),
{
    let mut m: u64 = POSITIVE_INFINITY;
    let mut i: usize = 0;
    while i < v.len()
        invariant
            i <= v@.len(),
            is_column_min(m, v@.subrange(0, i as int)),
        decreases v@.len() - i,
    {
        let ghost before = v@.subrange(0, i as int);
        let ghost prev = m;
        if less_than(v[i], m) {
            m = v[i];
        }
        proof {
            let after = v@.subrange(0, i + 1);
            assert(after == before.push(v@[i as int]));
            assert forall|j: int| 0 <= j < after.len() implies !float_lt(#[trigger] after[j], m) by {
                if j < before.len() {
                    assert(after[j] == before[j]);
                }
            }
            if m == prev {
                if m != POSITIVE_INFINITY {
                    let w = choose|w: int| 0 <= w < before.len() && before[w] == m;
                    assert(after[w] == m);
                }
            } else {
                assert(after[i as int] == m);
            }
        }
        i = i + 1;
    }
    assert(v@.subrange(0, v@.len() as int) == v@);
    m
}

/// The greatest value of a column, folded from negative infinity; NaNs are
/// passed over.
pub fn column_max(v: &Vec<u64>) -> (r: u64)
    ensures
        is_column_max(r, v@),
{
    let mut m: u64 = NEGATIVE_INFINITY;
    let mut i: usize = 0;
    while i < v.len()
        invariant
            i <= v@.len(),
            is_column_max(m, v@.subrange(0, i as int)),
        decreases v@.len() - i,
    {
        let ghost before = v@.subrange(0, i as int);
        let ghost prev = m;
        if less_than(m, v[i]) {
            m = v[i];
        }
        proof {
            let after = v@.subrange(0, i + 1);
            assert(after == before.push(v@[i as int]));
            assert forall|j: int| 0 <= j < after.len() implies !float_lt(m, #[trigger] after[j]) by {
                if j < before.len() {
                    assert(after[j] == before[j]);
                }
            }
            if m == prev {
                if m != NEGATIVE_INFINITY {
                    let w = choose|w: int| 0 <= w < before.len() && before[w] == m;
                    assert(after[w] == m);
                }
            } else {
                assert(after[i as int] == m);
            }
        }
        i = i + 1;
    }
    assert(v@.subrange(0, v@.len() as int) == v@);
    m
}

} // verus!
