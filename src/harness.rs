//! The benchmark harness's exact parts: the start state, a whole host run,
//! and the amount of work that a run performs.
use crate::backend::Backend;
use crate::buffers::{slot_after, BufferPair, Slot};
use crate::kernel::{kernel_total, runs_to};
use vstd::prelude::*;

verus! {

/// `n` copies of the particle `p`: every run starts from the same state.
pub fn uniform_population<T: Copy>(n: usize, p: T) -> (r: Vec<T>)
    ensures
        r@ == Seq::new(n as nat, |_i: int| p),
{
    let mut v: Vec<T> = Vec::with_capacity(n);
    let mut i: usize = 0;
    while i < n
        invariant
            i <= n,
            v@ == Seq::new(i as nat, |_i: int| p),
        decreases n - i,
    {
        v.push(p);
        i += 1;
        assert(v@ =~= Seq::new(i as nat, |_i: int| p));
    }
    v
}

/// The pairwise interactions of a run: every particle against every
/// particle, itself included, once per step.
pub fn interaction_count(n: u32, steps: u32) -> (r: u128)
    ensures
        r == n * n * steps,
{
    let n128 = n as u128;
    assert(n128 * n128 <= 0xffff_ffff_ffff_ffff_ffff_ffff_ffff_ffffu128) by (nonlinear_arith)
        requires
            n128 <= 0xffff_ffffu128,
    ;
    let nn = n128 * n128;
    assert(nn * steps <= 0xffff_ffff_ffff_ffff_ffff_ffff_ffff_ffffu128) by (nonlinear_arith)
        requires
            nn == n * n,
            n <= 0xffff_ffffu32,
            steps <= 0xffff_ffffu32,
    ;
    nn * steps as u128
}

/// Runs `steps` steps of `kernel` over `initial` on a host backend and
/// hands back the buffers, whose readable state is the result.
pub fn run_host<T: Copy + Send + Sync, F: Fn(&Vec<T>, usize) -> T + Sync>(
    backend: Backend,
    initial: Vec<T>,
    steps: usize,
    kernel: &F,
) -> (r: BufferPair<T>)
    requires
        kernel_total(*kernel),
    ensures
        r.wf(),
        r.count() == initial@.len(),
        r.source_spec() == slot_after(Slot::A, steps as nat),
        steps == 0 ==> r.current() == initial@,
        runs_to(*kernel, initial@, steps as nat, r.current()),
{
    let mut pair = BufferPair::new(initial);
    pair.run(backend, kernel, steps);
    pair
}

} // verus!
