//! The threshold rule that confirms or rejects each candidate.
use vstd::prelude::*;
use crate::order::{float_lt, less_than};

verus! {

/// Whether sample `j` of `d` goes past threshold `t`: above it when an elbow
/// is sought, below it when a knee is sought.
pub open spec fn passes(d: Seq<u64>, j: int, t: u64, find_elbow: bool) -> bool {
    if find_elbow {
        float_lt(t, d[j])
    } else {
        float_lt(d[j], t)
    }
}

/// Where the scan after candidate `k` stops (exclusive): at the next
/// candidate, or at the end of the curve after the last one.
pub open spec fn scan_end(n: int, c: Seq<usize>, k: int) -> int {
    if k + 1 < c.len() {
        c[k + 1] as int
    } else {
        n
    }
}

/// Candidate `k` is confirmed when some sample after it and before the end
/// of its scan goes past its threshold `t[k]`.
pub open spec fn confirmed(d: Seq<u64>, c: Seq<usize>, t: Seq<u64>, k: int, find_elbow: bool) -> bool {
    exists|j: int| c[k] < j < scan_end(d.len() as int, c, k) && passes(d, j, t[k], find_elbow)
}

/// The confirmed candidates among the first `k`, in the order of `c`.
pub open spec fn confirmed_prefix(d: Seq<u64>, c: Seq<usize>, t: Seq<u64>, find_elbow: bool, k: nat) -> Seq<usize>
    decreases k,
{
    if k == 0 {
        Seq::empty()
    } else {
        let before = confirmed_prefix(d, c, t, find_elbow, (k - 1) as nat);
        if confirmed(d, c, t, k - 1, find_elbow) {
            before.push(c[k - 1])
        } else {
            before
        }
    }
}

/// All confirmed candidates of `c`.
pub open spec fn confirmed_candidates(d: Seq<u64>, c: Seq<usize>, t: Seq<u64>, find_elbow: bool) -> Seq<usize> {
    confirmed_prefix(d, c, t, find_elbow, c.len())
}

/// Scans `d` from `first` up to `end` (exclusive) for a sample that goes
/// past `t`, stopping at the first.
fn scan_passes(d: &Vec<u64>, first: usize, end: usize, t: u64, find_elbow: bool) -> (r: bool)
    requires
        end <= d@.len(),
    ensures
        r == exists|j: int| first <= j < end && passes(d@, j, t, find_elbow),
{
    let mut j: usize = first;
    while j < end
        invariant
            end <= d@.len(),
            first <= j || end <= j,
            forall|i: int| first <= i < j ==> !passes(d@, i, t, find_elbow),
        decreases end - j,
    {
        let hit = if find_elbow {
            less_than(t, d[j])
        } else {
            less_than(d[j], t)
        };
        if hit {
            assert(passes(d@, j as int, t, find_elbow));
            return true;
        }
        j = j + 1;
    }
    false
}

/// Applies the threshold rule to each candidate index `c[k]` of the
/// difference curve `d`, with `t[k]` the candidate's threshold (its value
/// moved by the signed, sensitivity-scaled average step). Returns the
/// confirmed candidates in the order of `c`: those after which a sample
/// rises above the threshold (elbow) or falls below it (knee) before the next
/// candidate, or before the end of the curve for the last one.
pub fn confirm_candidates(d: &Vec<u64>, c: &Vec<usize>, t: &Vec<u64>, find_elbow: bool) -> (r: Vec<usize>)
    requires
        c@.len() == t@.len(),
        forall|k: int| 0 <= k < c@.len() ==> c@[k] < d@.len(),
    ensures
        r@ == confirmed_candidates(d@, c@, t@, find_elbow),
        forall|a: int| 0 <= a < r@.len() ==> c@.contains(#[trigger] r@[a]),
        (forall|a: int, b: int| 0 <= a < b < c@.len() ==> c@[a] < c@[b]) ==> (forall|a: int, b: int|
            0 <= a < b < r@.len() ==> r@[a] < r@[b]),
{
    let mut r: Vec<usize> = Vec::new();
    let mut k: usize = 0;
    while k < c.len()
        invariant
            c@.len() == t@.len(),
            forall|i: int| 0 <= i < c@.len() ==> c@[i] < d@.len(),
            k <= c@.len(),
            r@ == confirmed_prefix(d@, c@, t@, find_elbow, k as nat),
            forall|a: int| 0 <= a < r@.len() ==> exists|j: int| 0 <= j < k && c@[j] == #[trigger] r@[a],
            (forall|a: int, b: int| 0 <= a < b < c@.len() ==> c@[a] < c@[b]) ==> (forall|a: int, b: int|
                0 <= a < b < r@.len() ==> r@[a] < r@[b]),
        decreases c@.len() - k,
    {
        let n = d.len();
        let at = c[k];
        assert(at < n);
        let end = if k + 1 < c.len() {
            c[k + 1]
        } else {
            n
        };
        let ghost before = r@;
        if scan_passes(d, at + 1, end, t[k], find_elbow) {
            r.push(at);
            proof {
                assert forall|a: int| 0 <= a < r@.len() implies exists|j: int| 0 <= j < k + 1 && c@[j] == #[trigger] r@[a] by {
                    if a < before.len() {
                        assert(r@[a] == before[a]);
                    } else {
                        assert(c@[k as int] == r@[a]);
                    }
                }
                if forall|a: int, b: int| 0 <= a < b < c@.len() ==> c@[a] < c@[b] {
                    assert forall|a: int, b: int| 0 <= a < b < r@.len() implies r@[a] < r@[b] by {
                        if b == before.len() {
                            assert(r@[a] == before[a]);
                            let j = choose|j: int| 0 <= j < k && c@[j] == #[trigger] before[a];
                            assert(c@[j] < c@[k as int]);
                        } else {
                            assert(r@[a] == before[a] && r@[b] == before[b]);
                        }
                    }
                }
            }
        }
        k = k + 1;
    }
    assert forall|a: int| 0 <= a < r@.len() implies c@.contains(#[trigger] r@[a]) by {
        let j = choose|j: int| 0 <= j < c@.len() && c@[j] == #[trigger] r@[a];
    }
    r
}

} // verus!
