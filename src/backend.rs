//! The host execution backends: how the indices of one step are spread
//! over the machine.
use crate::kernel::{evaluate, is_step};
use rayon::iter::{IndexedParallelIterator, IntoParallelIterator, ParallelIterator};
use vstd::prelude::*;

verus! {

/// How the particle indices of a step are distributed.
#[derive(Clone, Copy, Debug, PartialEq, Eq, Structural)]
pub enum Backend {
    /// Indices `0..n` in increasing order on the calling thread.
    Sequential,
    /// Sub-ranges of `0..n` on a worker pool sized to the machine, joined
    /// before the step ends.
    DataParallel,
}

/// Relies on rayon's `collect_into_vec` over the indexed parallel map of
/// `0..n`: `dst` is cleared and then holds, at each index `i`, the item
/// that the map produced for `i`; the step has ended when it returns.
#[verifier::external_body]
fn par_evaluate_into<T: Send + Sync, F: Fn(&Vec<T>, usize) -> T + Sync>(
    src: &Vec<T>,
    dst: &mut Vec<T>,
    kernel: &F,
)
    requires
        forall|i: usize| i < src.len() ==> kernel.requires((src, i)),
    ensures
        is_step(*kernel, *src, final(dst)@),
{
    (0..src.len()).into_par_iter().map(|i| evaluate(kernel, src, i)).collect_into_vec(dst)
}

/// Writes `kernel(src, i)` to `dst[i]` for `i` in `0..n`, in that order.
fn sequential_evaluate_into<T, F: Fn(&Vec<T>, usize) -> T>(
    src: &Vec<T>,
    dst: &mut Vec<T>,
    kernel: &F,
)
    requires
        old(dst).len() == src.len(),
        forall|i: usize| i < src.len() ==> kernel.requires((src, i)),
    ensures
        is_step(*kernel, *src, final(dst)@),
{
    let n = src.len();
    let mut i: usize = 0;
    while i < n
        invariant
            n == src.len(),
            dst.len() == n,
            i <= n,
            forall|k: usize| k < src.len() ==> kernel.requires((src, k)),
            forall|j: int| 0 <= j < i ==> kernel.ensures((src, j as usize), #[trigger] dst@[j]),
        decreases n - i,
    {
        let p = evaluate(kernel, src, i);
        dst.set(i, p);
        i += 1;
    }
}

impl Backend {
    /// Computes one step: every slot of `dst` receives the kernel's result
    /// for its index against the unchanged snapshot `src`.
    pub fn dispatch<T: Send + Sync, F: Fn(&Vec<T>, usize) -> T + Sync>(
        self,
        src: &Vec<T>,
        dst: &mut Vec<T>,
        kernel: &F,
    )
        requires
            old(dst).len() == src.len(),
            forall|i: usize| i < src.len() ==> kernel.requires((src, i)),
        ensures
            is_step(*kernel, *src, final(dst)@),
    {
        match self {
            Backend::Sequential => sequential_evaluate_into(src, dst, kernel),
            Backend::DataParallel => par_evaluate_into(src, dst, kernel),
        }
    }
}

} // verus!
