//! The accelerator backend's host-side decisions: how a run is laid out on
//! the device, which buffer each dispatch reads, which buffer is copied
//! back, and the order in which the staging region may be mapped, read and
//! released. The device calls themselves are made by the caller, which
//! reports what happened.
use crate::buffers::{other_slot, slot_after, Slot};
use vstd::prelude::*;

verus! {

/// Bytes per particle on the device: two 2-component 32-bit vectors.
pub const PARTICLE_BYTES: u64 = 16;

/// Work-items per workgroup of the force kernel.
pub const WORKGROUP_SIZE: u32 = 64;

/// Why an accelerator run produced no checksum.
#[derive(Clone, Copy, Debug, PartialEq, Eq, Structural)]
pub enum RunError {
    /// No suitable accelerator was found.
    DeviceUnavailable,
    /// The device reported an error while making the staging region
    /// visible to the host.
    DeviceMapFailure,
    /// The run needs more than a limit that the device reports.
    AllocationTooLarge,
}

/// The device limits that a run is checked against before anything is
/// dispatched.
#[derive(Clone, Copy, Debug, PartialEq, Eq, Structural)]
pub struct DeviceLimits {
    /// Largest storage buffer that one binding may cover, in bytes.
    pub max_storage_binding_bytes: u64,
    /// Largest buffer that may be created, in bytes.
    pub max_buffer_bytes: u64,
    /// Largest workgroup count of one dispatch dimension.
    pub max_workgroups_per_dimension: u32,
}

/// The number of workgroups that cover `n` work-items: the last one may be
/// partial, and its work-items past `n` return without writing.
pub open spec fn workgroups_for(n: nat) -> nat {
    ((n + WORKGROUP_SIZE - 1) / (WORKGROUP_SIZE as int)) as nat
}

/// The bytes of one state buffer of `n` particles.
pub open spec fn buffer_bytes_for(n: nat) -> nat {
    n * (PARTICLE_BYTES as nat)
}

/// A run of `n` particles fits in `limits`.
pub open spec fn fits(n: nat, limits: DeviceLimits) -> bool {
    &&& buffer_bytes_for(n) <= limits.max_storage_binding_bytes
    &&& buffer_bytes_for(n) <= limits.max_buffer_bytes
    &&& workgroups_for(n) <= limits.max_workgroups_per_dimension
}

/// The number of workgroups that one step dispatches for `n` particles.
pub fn workgroup_count(n: u32) -> (r: u32)
    ensures
        r == workgroups_for(n as nat),
        r * WORKGROUP_SIZE >= n,
        n > 0 ==> (r - 1) * WORKGROUP_SIZE < n,
{
    let r = n / WORKGROUP_SIZE + if n % WORKGROUP_SIZE == 0 {
        0u32
    } else {
        1u32
    };
    assert(r == workgroups_for(n as nat));
    r
}

/// The size of one state buffer of `n` particles, in bytes.
pub fn buffer_bytes(n: u32) -> (r: u64)
    ensures
        r == buffer_bytes_for(n as nat),
{
    n as u64 * PARTICLE_BYTES
}

/// The geometry of a run, checked against the device's limits.
#[derive(Clone, Copy, Debug, PartialEq, Eq, Structural)]
pub struct DispatchPlan {
    /// Particles in each state buffer.
    pub particle_count: u32,
    /// Workgroups per step.
    pub workgroups: u32,
    /// Bytes of each state buffer and of the staging region.
    pub buffer_bytes: u64,
}

/// Lays out a run of `n` particles, or refuses it before any dispatch when
/// it exceeds one of `limits`.
pub fn plan_dispatch(n: u32, limits: DeviceLimits) -> (r: Result<DispatchPlan, RunError>)
    ensures
        r is Ok <==> fits(n as nat, limits),
        r is Err ==> r == Err::<DispatchPlan, RunError>(RunError::AllocationTooLarge),
        r matches Ok(p) ==> {
            &&& p.particle_count == n
            &&& p.workgroups == workgroups_for(n as nat)
            &&& p.buffer_bytes == buffer_bytes_for(n as nat)
        },
{
    let bytes = buffer_bytes(n);
    let groups = workgroup_count(n);
    if bytes > limits.max_storage_binding_bytes || bytes > limits.max_buffer_bytes
        || groups > limits.max_workgroups_per_dimension {
        Err(RunError::AllocationTooLarge)
    } else {
        Ok(DispatchPlan { particle_count: n, workgroups: groups, buffer_bytes: bytes })
    }
}

/// The slot that holds the state after `steps` steps when buffer `A` holds
/// the initial population: `A` after an even count, `B` after an odd one.
pub fn final_slot(steps: u32) -> (r: Slot)
    ensures
        r == slot_after(Slot::A, steps as nat),
        r == (if steps % 2 == 0 {
            Slot::A
        } else {
            Slot::B
        }),
{
    if steps % 2 == 0 {
        Slot::A
    } else {
        Slot::B
    }
}

/// Where an accelerator run stands.
#[derive(Clone, Copy, Debug, PartialEq, Eq, Structural)]
pub enum Stage {
    /// Step dispatches are being encoded.
    Dispatching,
    /// Every step has been dispatched.
    Dispatched,
    /// The final state has been copied into the staging region.
    Copied,
    /// Host visibility of the staging region has been requested; the
    /// caller waits here for the device.
    MapRequested,
    /// The staging region is visible to the host.
    Mapped,
    /// The checksum has been read from the staging region.
    Read,
    /// The device reported an error instead of mapping.
    MapFailed,
    /// The staging region has been released.
    Unmapped,
}

/// One step's dispatch: which buffer it binds as source and which as
/// destination.
#[derive(Clone, Copy, Debug, PartialEq, Eq, Structural)]
pub struct StepDispatch {
    /// The buffer that every work-item of the step reads.
    pub source: Slot,
    /// The buffer that the step writes.
    pub destination: Slot,
    /// Workgroups to dispatch.
    pub workgroups: u32,
}

/// The device-side copy that brings the final state to the staging region.
#[derive(Clone, Copy, Debug, PartialEq, Eq, Structural)]
pub struct StagingCopy {
    /// The buffer that the last step wrote.
    pub from: Slot,
    /// Bytes to copy: the whole buffer.
    pub bytes: u64,
}

/// The protocol of one accelerator run, from the first dispatch to the
/// release of the staging region. Buffer `A` holds the initial population.
pub struct AcceleratorRun {
    plan: DispatchPlan,
    steps: u32,
    dispatched: u32,
    stage: Stage,
}

impl AcceleratorRun {
    /// The layout of the run.
    pub closed spec fn plan_spec(&self) -> DispatchPlan {
        self.plan
    }

    /// The number of steps of the run.
    pub closed spec fn steps_spec(&self) -> nat {
        self.steps as nat
    }

    /// The number of steps dispatched so far.
    pub closed spec fn dispatched_spec(&self) -> nat {
        self.dispatched as nat
    }

    /// Where the run stands.
    pub closed spec fn stage_spec(&self) -> Stage {
        self.stage
    }

    /// No more steps are dispatched than the run has.
    pub open spec fn wf(&self) -> bool {
        self.dispatched_spec() <= self.steps_spec()
    }

    /// Starts a run of `steps` steps over `n` particles, refused with
    /// `AllocationTooLarge` before anything is dispatched when it exceeds
    /// one of `limits`.
    pub fn new(n: u32, steps: u32, limits: DeviceLimits) -> (r: Result<AcceleratorRun, RunError>)
        ensures
            r is Ok <==> fits(n as nat, limits),
            r is Err ==> r->Err_0 == RunError::AllocationTooLarge,
            r matches Ok(run) ==> {
                &&& run.plan_spec().particle_count == n
                &&& run.plan_spec().workgroups == workgroups_for(n as nat)
                &&& run.plan_spec().buffer_bytes == buffer_bytes_for(n as nat)
                &&& run.steps_spec() == steps
                &&& run.dispatched_spec() == 0
                &&& run.stage_spec() == Stage::Dispatching
                &&& run.wf()
            },
    {
        match plan_dispatch(n, limits) {
            Ok(plan) => Ok(AcceleratorRun { plan, steps, dispatched: 0, stage: Stage::Dispatching }),
            Err(e) => Err(e),
        }
    }

    /// The layout of the run.
    pub fn plan(&self) -> (r: DispatchPlan)
        ensures
            r == self.plan_spec(),
    {
        self.plan
    }

    /// Where the run stands.
    pub fn stage(&self) -> (r: Stage)
        ensures
            r == self.stage_spec(),
    {
        self.stage
    }

    /// The next step to dispatch, or `None` once all have been, which ends
    /// the dispatch stage. Step `k` reads the buffer of the parity of `k`
    /// and writes the other, so each step reads what the one before wrote.
    pub fn next_dispatch(&mut self) -> (r: Option<StepDispatch>)
        requires
            old(self).wf(),
            old(self).stage_spec() == Stage::Dispatching,
        ensures
            final(self).wf(),
            final(self).plan_spec() == old(self).plan_spec(),
            final(self).steps_spec() == old(self).steps_spec(),
            old(self).dispatched_spec() < old(self).steps_spec() ==> {
                &&& r == Some(
                    StepDispatch {
                        source: slot_after(Slot::A, old(self).dispatched_spec()),
                        destination: other_slot(slot_after(Slot::A, old(self).dispatched_spec())),
                        workgroups: old(self).plan_spec().workgroups,
                    },
                )
                &&& final(self).dispatched_spec() == old(self).dispatched_spec() + 1
                &&& final(self).stage_spec() == Stage::Dispatching
            },
            old(self).dispatched_spec() == old(self).steps_spec() ==> {
                &&& r is None
                &&& final(self).dispatched_spec() == old(self).dispatched_spec()
                &&& final(self).stage_spec() == Stage::Dispatched
            },
    {
        if self.dispatched < self.steps {
            let source = final_slot(self.dispatched);
            let d = StepDispatch {
                source,
                destination: source.other(),
                workgroups: self.plan.workgroups,
            };
            self.dispatched = self.dispatched + 1;
            Some(d)
        } else {
            self.stage = Stage::Dispatched;
            None
        }
    }

    /// The copy of the final state into the staging region: the buffer that
    /// the last step wrote, whole.
    pub fn copy_to_staging(&mut self) -> (r: StagingCopy)
        requires
            old(self).stage_spec() == Stage::Dispatched,
        ensures
            r == (StagingCopy {
                from: slot_after(Slot::A, old(self).steps_spec()),
                bytes: old(self).plan_spec().buffer_bytes,
            }),
            final(self).stage_spec() == Stage::Copied,
            final(self).plan_spec() == old(self).plan_spec(),
            final(self).steps_spec() == old(self).steps_spec(),
    {
        self.stage = Stage::Copied;
        StagingCopy { from: final_slot(self.steps), bytes: self.plan.buffer_bytes }
    }

    /// Records that host visibility of the staging region was requested.
    pub fn request_map(&mut self)
        requires
            old(self).stage_spec() == Stage::Copied,
        ensures
            final(self).stage_spec() == Stage::MapRequested,
            final(self).plan_spec() == old(self).plan_spec(),
            final(self).steps_spec() == old(self).steps_spec(),
    {
        self.stage = Stage::MapRequested;
    }

    /// Records the device's answer to the map request.
    pub fn map_finished(&mut self, ok: bool)
        requires
            old(self).stage_spec() == Stage::MapRequested,
        ensures
            final(self).stage_spec() == (if ok {
                Stage::Mapped
            } else {
                Stage::MapFailed
            }),
            final(self).plan_spec() == old(self).plan_spec(),
            final(self).steps_spec() == old(self).steps_spec(),
    {
        self.stage = if ok {
            Stage::Mapped
        } else {
            Stage::MapFailed
        };
    }

    /// Whether the staging region may be read now: only once the device
    /// has signalled that it is mapped, and before it is released.
    pub fn can_read(&self) -> (r: bool)
        ensures
            r == (self.stage_spec() == Stage::Mapped),
    {
        self.stage == Stage::Mapped
    }

    /// Records that the checksum was read from the mapped region.
    pub fn mark_read(&mut self)
        requires
            old(self).stage_spec() == Stage::Mapped,
        ensures
            final(self).stage_spec() == Stage::Read,
            final(self).plan_spec() == old(self).plan_spec(),
            final(self).steps_spec() == old(self).steps_spec(),
    {
        self.stage = Stage::Read;
    }

    /// Releases the staging region, on the success path and on the failure
    /// path alike, and gives the run's outcome: success only when the
    /// checksum was read, `DeviceMapFailure` when the map failed.
    pub fn release(&mut self) -> (r: Result<(), RunError>)
        requires
            old(self).stage_spec() == Stage::Read || old(self).stage_spec() == Stage::MapFailed,
        ensures
            final(self).stage_spec() == Stage::Unmapped,
            r is Ok <==> old(self).stage_spec() == Stage::Read,
            r is Err ==> r->Err_0 == RunError::DeviceMapFailure,
    {
        let outcome = if self.stage == Stage::Read {
            Ok(())
        } else {
            Err(RunError::DeviceMapFailure)
        };
        self.stage = Stage::Unmapped;
        outcome
    }
}

} // verus!
