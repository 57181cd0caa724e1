//! What a force kernel is asked to do, and what a run of steps is.
//!
//! A kernel is a closure `kernel(src, i)` that computes particle `i`'s next
//! state from the whole population `src` of the previous step. The engine
//! never looks inside it: every statement here is made relative to the
//! kernel's own postcondition.
use vstd::prelude::*;

verus! {

/// The kernel may be called on every index of every population.
pub open spec fn kernel_total<T, F: Fn(&Vec<T>, usize) -> T>(kernel: F) -> bool {
    forall|src: &Vec<T>, i: usize| i < src.len() ==> #[trigger] kernel.requires((src, i))
}

/// The kernel's result at an index depends on what the population holds
/// and on the index alone, so two calls on equal contents agree.
pub open spec fn kernel_pure<T, F: Fn(&Vec<T>, usize) -> T>(kernel: F) -> bool {
    forall|s1: &Vec<T>, s2: &Vec<T>, i: usize, r1: T, r2: T|
        s1@ == s2@ && #[trigger] kernel.ensures((s1, i), r1) && #[trigger] kernel.ensures(
            (s2, i),
            r2,
        ) ==> r1 == r2
}

/// `next` is a state that one step can produce from `src`: one entry per
/// particle, entry `i` being a result of the kernel on `src` and `i`, with
/// every call reading the same snapshot `src`.
pub open spec fn is_step<T, F: Fn(&Vec<T>, usize) -> T>(
    kernel: F,
    src: Vec<T>,
    next: Seq<T>,
) -> bool {
    &&& next.len() == src.len()
    &&& forall|i: int|
        0 <= i < next.len() ==> kernel.ensures((&src, i as usize), #[trigger] next[i])
}

/// `states` is the sequence of populations of a run: each one after the
/// first is a step from the one before it.
pub open spec fn is_trajectory<T, F: Fn(&Vec<T>, usize) -> T>(
    kernel: F,
    states: Seq<Vec<T>>,
) -> bool
    decreases states.len(),
{
    if states.len() <= 1 {
        states.len() == 1
    } else {
        &&& is_trajectory(kernel, states.drop_last())
        &&& is_step(kernel, states[states.len() - 2], states.last()@)
    }
}

/// A run of `steps` steps of `kernel` can lead from `start` to `end`.
pub open spec fn runs_to<T, F: Fn(&Vec<T>, usize) -> T>(
    kernel: F,
    start: Seq<T>,
    steps: nat,
    end: Seq<T>,
) -> bool {
    exists|states: Seq<Vec<T>>|
        {
            &&& #[trigger] is_trajectory(kernel, states)
            &&& states.len() == steps + 1
            &&& states[0]@ == start
            &&& states.last()@ == end
        }
}

/// Calls the kernel on particle `i` of `src`.
pub fn evaluate<T, F: Fn(&Vec<T>, usize) -> T>(kernel: &F, src: &Vec<T>, i: usize) -> (r: T)
    requires
        kernel.requires((src, i)),
    ensures
        kernel.ensures((src, i), r),
{
    kernel(src, i)
}

} // verus!
