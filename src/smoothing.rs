//! The reach of the Gaussian smoothing kernel, counted in samples.
use vstd::prelude::*;

verus! {

/// The samples that the kernel centred on one sample averages over: indices
/// `first..=last`, and the width that index distances are divided by.
#[derive(Debug, Clone, Copy, PartialEq, Eq, Structural)]
pub struct KernelSpan {
    pub first: usize,
    pub last: usize,
    pub width: usize,
}

/// The span of the kernel of half-width `w` centred on sample `i` of a curve
/// of `n` samples: `[i - w, i + w]` clipped to the curve, so that edge samples
/// use fewer neighbours. A half-width of zero reaches the sample alone, but
/// distances are still divided by at least one.
pub fn kernel_span(i: usize, w: usize, n: usize) -> (r: KernelSpan)
    requires
        i < n,
    ensures
        r.first == if i >= w { i - w } else { 0 },
        r.last == if i + w < n { i + w } else { n - 1 },
        r.width == if w == 0 { 1 } else { w },
        r.first <= i <= r.last < n,
{
    let first = if i >= w { i - w } else { 0 };
    let last = if w < n - i { i + w } else { n - 1 };
    let width = if w == 0 { 1 } else { w };
    KernelSpan { first, last, width }
}

} // verus!
