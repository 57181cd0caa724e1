//! The state store, two fixed buffers and the flag naming the read source,
//! and the step driver that sweeps a kernel over them.
use crate::backend::Backend;
use crate::kernel::{is_step, is_trajectory, kernel_total, runs_to};
use vstd::prelude::*;

verus! {

/// One of the two physical buffers of a [`BufferPair`].
#[derive(Clone, Copy, Debug, PartialEq, Eq, Structural)]
pub enum Slot {
    A,
    B,
}

/// The slot that is not `s`.
pub open spec fn other_slot(s: Slot) -> Slot {
    match s {
        Slot::A => Slot::B,
        Slot::B => Slot::A,
    }
}

/// The slot that is the read source after `steps` role swaps, starting at `start`.
pub open spec fn slot_after(start: Slot, steps: nat) -> Slot {
    if steps % 2 == 0 {
        start
    } else {
        other_slot(start)
    }
}

impl Slot {
    /// The slot that is not `self`.
    pub fn other(self) -> (r: Slot)
        ensures
            r == other_slot(self),
    {
        match self {
            Slot::A => Slot::B,
            Slot::B => Slot::A,
        }
    }
}

/// Two equally long particle buffers and the role flag that names which of
/// them the next step reads; the other one is where that step writes.
pub struct BufferPair<T> {
    a: Vec<T>,
    b: Vec<T>,
    source: Slot,
}

impl<T> BufferPair<T> {
    /// Both buffers hold one slot per particle.
    pub open spec fn wf(&self) -> bool {
        self.view_of(Slot::A).len() == self.view_of(Slot::B).len()
    }

    /// The population count.
    pub open spec fn count(&self) -> nat {
        self.view_of(Slot::A).len()
    }

    /// The slot that the next step reads.
    pub closed spec fn source_spec(&self) -> Slot {
        self.source
    }

    /// The buffer in `slot`, as a value.
    pub closed spec fn buffer_spec(&self, slot: Slot) -> Vec<T> {
        match slot {
            Slot::A => self.a,
            Slot::B => self.b,
        }
    }

    /// What the buffer in `slot` holds.
    pub open spec fn view_of(&self, slot: Slot) -> Seq<T> {
        self.buffer_spec(slot)@
    }

    /// The population that the next step reads, which is also the state
    /// that the last step wrote.
    pub open spec fn current(&self) -> Seq<T> {
        self.view_of(self.source_spec())
    }

    /// The number of particles.
    pub fn len(&self) -> (r: usize)
        requires
            self.wf(),
        ensures
            r == self.count(),
    {
        self.a.len()
    }

    /// The slot that the next step reads.
    pub fn source_slot(&self) -> (r: Slot)
        ensures
            r == self.source_spec(),
    {
        self.source
    }

    /// The slot that the next step writes.
    pub fn destination_slot(&self) -> (r: Slot)
        ensures
            r == other_slot(self.source_spec()),
    {
        self.source.other()
    }

    /// The buffer in `slot`.
    pub fn buffer(&self, slot: Slot) -> (r: &Vec<T>)
        ensures
            *r == self.buffer_spec(slot),
    {
        match slot {
            Slot::A => &self.a,
            Slot::B => &self.b,
        }
    }

    /// The readable state: the buffer that the last step wrote (the initial
    /// population before any step).
    pub fn final_state(&self) -> (r: &Vec<T>)
        ensures
            *r == self.buffer_spec(self.source_spec()),
            r@ == self.current(),
    {
        self.buffer(self.source)
    }

    /// Exchanges the roles of the two buffers; nothing is copied.
    pub fn swap_roles(&mut self)
        ensures
            final(self).source_spec() == other_slot(old(self).source_spec()),
            final(self).buffer_spec(Slot::A) == old(self).buffer_spec(Slot::A),
            final(self).buffer_spec(Slot::B) == old(self).buffer_spec(Slot::B),
    {
        self.source = self.source.other();
    }
}

impl<T: Copy> BufferPair<T> {
    /// A pair whose buffers both hold `initial`, with buffer `A` as the
    /// first read source.
    pub fn new(initial: Vec<T>) -> (r: BufferPair<T>)
        ensures
            r.wf(),
            r.source_spec() == Slot::A,
            r.view_of(Slot::A) == initial@,
            r.view_of(Slot::B) == initial@,
    {
        let mut b: Vec<T> = Vec::with_capacity(initial.len());
        let mut i: usize = 0;
        while i < initial.len()
            invariant
                i <= initial.len(),
                b@ == initial@.subrange(0, i as int),
            decreases initial.len() - i,
        {
            b.push(initial[i]);
            i += 1;
            assert(b@ =~= initial@.subrange(0, i as int));
        }
        assert(b@ =~= initial@);
        BufferPair { a: initial, b, source: Slot::A }
    }

    /// The particle whose position is the run's checksum: index 0 of the
    /// readable state, absent from an empty population.
    pub fn checksum_particle(&self) -> (r: Option<T>)
        requires
            self.wf(),
        ensures
            self.count() == 0 ==> r is None,
            self.count() > 0 ==> r == Some(self.current()[0]),
    {
        let state = self.final_state();
        if state.len() == 0 {
            None
        } else {
            Some(state[0])
        }
    }
}

impl<T: Copy + Send + Sync> BufferPair<T> {
    /// One step: every particle of the destination buffer is computed from
    /// the source buffer, which no write of the step touches; then the
    /// roles swap, so the state just written is the next step's source.
    pub fn step<F: Fn(&Vec<T>, usize) -> T + Sync>(&mut self, backend: Backend, kernel: &F)
        requires
            old(self).wf(),
            kernel_total(*kernel),
        ensures
            final(self).wf(),
            final(self).count() == old(self).count(),
            final(self).source_spec() == other_slot(old(self).source_spec()),
            final(self).buffer_spec(old(self).source_spec()) == old(self).buffer_spec(
                old(self).source_spec(),
            ),
            is_step(*kernel, old(self).buffer_spec(old(self).source_spec()), final(self).current()),
    {
        match self.source {
            Slot::A => backend.dispatch(&self.a, &mut self.b, kernel),
            Slot::B => backend.dispatch(&self.b, &mut self.a, kernel),
        }
        self.swap_roles();
    }

    /// Runs `steps` steps. The state that results is a run of that many
    /// steps from the current one, and it is readable in the slot that the
    /// parity of `steps` names: the starting source after an even count,
    /// the other buffer after an odd one.
    pub fn run<F: Fn(&Vec<T>, usize) -> T + Sync>(
        &mut self,
        backend: Backend,
        kernel: &F,
        steps: usize,
    )
        requires
            old(self).wf(),
            kernel_total(*kernel),
        ensures
            final(self).wf(),
            final(self).count() == old(self).count(),
            final(self).source_spec() == slot_after(old(self).source_spec(), steps as nat),
            steps == 0 ==> final(self).current() == old(self).current(),
            runs_to(*kernel, old(self).current(), steps as nat, final(self).current()),
    {
        let ghost start = self.buffer_spec(self.source_spec());
        let ghost mut states: Seq<Vec<T>> = seq![start];
        let mut k: usize = 0;
        while k < steps
            invariant
                self.wf(),
                self.count() == old(self).count(),
                kernel_total(*kernel),
                k <= steps,
                self.source_spec() == slot_after(old(self).source_spec(), k as nat),
                start@ == old(self).current(),
                states.len() == k + 1,
                states[0] == start,
                states.last() == self.buffer_spec(self.source_spec()),
                is_trajectory(*kernel, states),
            decreases steps - k,
        {
            self.step(backend, kernel);
            proof {
                let prev = states;
                states = states.push(self.buffer_spec(self.source_spec()));
                assert(states.drop_last() =~= prev);
            }
            k += 1;
        }
        assert(is_trajectory(*kernel, states));
    }
}

} // verus!
