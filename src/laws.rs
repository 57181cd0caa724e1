//! Laws of runs that hold whichever host backend made them.
use crate::buffers::{other_slot, slot_after, Slot};
use crate::kernel::{is_step, is_trajectory, kernel_pure, runs_to};
use vstd::prelude::*;

verus! {

/// Two trajectories of a pure kernel from equal starts agree at their ends.
proof fn lemma_trajectories_agree<T, F: Fn(&Vec<T>, usize) -> T>(
    kernel: F,
    s1: Seq<Vec<T>>,
    s2: Seq<Vec<T>>,
)
    requires
        kernel_pure(kernel),
        is_trajectory(kernel, s1),
        is_trajectory(kernel, s2),
        s1.len() == s2.len(),
        s1[0]@ == s2[0]@,
    ensures
        s1.last()@ == s2.last()@,
    decreases s1.len(),
{
    if s1.len() > 1 {
        let p1 = s1.drop_last();
        let p2 = s2.drop_last();
        lemma_trajectories_agree(kernel, p1, p2);
        let src1 = s1[s1.len() - 2];
        let src2 = s2[s2.len() - 2];
        assert(src1@ == src2@);
        let n1 = s1.last()@;
        let n2 = s2.last()@;
        assert(is_step(kernel, src1, n1));
        assert(is_step(kernel, src2, n2));
        assert forall|i: int| 0 <= i < n1.len() implies n1[i] == n2[i] by {
            assert(kernel.ensures((&src1, i as usize), n1[i]));
            assert(kernel.ensures((&src2, i as usize), n2[i]));
        }
        assert(n1 =~= n2);
    }
}

/// Backend independence: with a pure kernel, any two runs of the same
/// number of steps from the same population end in the same population.
/// The sequential and the data-parallel backend both produce such runs, so
/// their results agree value for value.
pub proof fn lemma_runs_agree<T, F: Fn(&Vec<T>, usize) -> T>(
    kernel: F,
    start: Seq<T>,
    steps: nat,
    end1: Seq<T>,
    end2: Seq<T>,
)
    requires
        kernel_pure(kernel),
        runs_to(kernel, start, steps, end1),
        runs_to(kernel, start, steps, end2),
    ensures
        end1 == end2,
{
    let s1 = choose|s: Seq<Vec<T>>|
        {
            &&& #[trigger] is_trajectory(kernel, s)
            &&& s.len() == steps + 1
            &&& s[0]@ == start
            &&& s.last()@ == end1
        };
    let s2 = choose|s: Seq<Vec<T>>|
        {
            &&& #[trigger] is_trajectory(kernel, s)
            &&& s.len() == steps + 1
            &&& s[0]@ == start
            &&& s.last()@ == end2
        };
    lemma_trajectories_agree(kernel, s1, s2);
}

/// A run of zero steps leaves the population as it was.
pub proof fn lemma_zero_steps<T, F: Fn(&Vec<T>, usize) -> T>(
    kernel: F,
    start: Seq<T>,
    end: Seq<T>,
)
    requires
        runs_to(kernel, start, 0, end),
    ensures
        end == start,
{
}

/// Every state of a trajectory that starts at a fixed point of the kernel
/// equals the start.
proof fn lemma_trajectory_stays<T, F: Fn(&Vec<T>, usize) -> T>(kernel: F, s: Seq<Vec<T>>)
    requires
        is_trajectory(kernel, s),
        forall|v: &Vec<T>, i: usize, r: T|
            v@ == s[0]@ && #[trigger] kernel.ensures((v, i), r) ==> r == s[0]@[i as int],
    ensures
        s.last()@ == s[0]@,
    decreases s.len(),
{
    if s.len() > 1 {
        let p = s.drop_last();
        lemma_trajectory_stays(kernel, p);
        let src = s[s.len() - 2];
        let next = s.last()@;
        assert(is_step(kernel, src, next));
        assert forall|i: int| 0 <= i < next.len() implies next[i] == s[0]@[i] by {
            assert(kernel.ensures((&src, i as usize), next[i]));
        }
        assert(next =~= s[0]@);
    }
}

/// A population that the kernel maps to itself stays unchanged for any
/// number of steps. A single particle at rest, whose only force term is
/// its own zero displacement, is such a population.
pub proof fn lemma_fixed_point_persists<T, F: Fn(&Vec<T>, usize) -> T>(
    kernel: F,
    start: Seq<T>,
    steps: nat,
    end: Seq<T>,
)
    requires
        runs_to(kernel, start, steps, end),
        forall|v: &Vec<T>, i: usize, r: T|
            v@ == start && #[trigger] kernel.ensures((v, i), r) ==> r == start[i as int],
    ensures
        end == start,
{
    let s = choose|s: Seq<Vec<T>>|
        {
            &&& #[trigger] is_trajectory(kernel, s)
            &&& s.len() == steps + 1
            &&& s[0]@ == start
            &&& s.last()@ == end
        };
    lemma_trajectory_stays(kernel, s);
}

/// Buffer-role parity: after an even number of steps the readable state is
/// in the buffer that was the source at the start, after an odd number in
/// the other one, and the two are different buffers.
pub proof fn lemma_final_slot_parity(start: Slot, steps: nat)
    ensures
        steps % 2 == 0 ==> slot_after(start, steps) == start,
        steps % 2 == 1 ==> slot_after(start, steps) == other_slot(start),
        other_slot(start) != start,
        slot_after(start, steps) == start <==> steps % 2 == 0,
{
}

} // verus!
