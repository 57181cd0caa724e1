use nbody::accelerator::{
    buffer_bytes, final_slot, plan_dispatch, workgroup_count,
    AcceleratorRun, DeviceLimits, RunError, Stage, StagingCopy, StepDispatch,
};
use nbody::buffers::Slot;
use nbody::harness::interaction_count;

fn roomy() -> DeviceLimits {
    DeviceLimits {
        max_storage_binding_bytes: 128 * 1024 * 1024,
        max_buffer_bytes: 256 * 1024 * 1024,
        max_workgroups_per_dimension: 65535,
    }
}

#[test]
fn workgroups_cover_partial_groups() {
    assert_eq!(workgroup_count(16384), 256);
    assert_eq!(workgroup_count(64), 1);
    assert_eq!(workgroup_count(65), 2);
    assert_eq!(workgroup_count(1), 1);
    assert_eq!(workgroup_count(0), 0);
    assert_eq!(workgroup_count(u32::MAX), 67108864);
}

#[test]
fn buffer_size_is_sixteen_bytes_per_particle() {
    assert_eq!(buffer_bytes(16384), 262144);
    assert_eq!(buffer_bytes(u32::MAX), 68719476720);
}

#[test]
fn plan_within_limits() {
    let plan = plan_dispatch(16384, roomy()).unwrap();
    assert_eq!(plan.particle_count, 16384);
    assert_eq!(plan.workgroups, 256);
    assert_eq!(plan.buffer_bytes, 262144);
}

#[test]
fn plan_refuses_oversized_buffers() {
    let mut limits = roomy();
    limits.max_storage_binding_bytes = 1600;
    assert!(plan_dispatch(100, limits).is_ok());
    assert_eq!(plan_dispatch(101, limits), Err(RunError::AllocationTooLarge));
    let mut limits = roomy();
    limits.max_buffer_bytes = 1000;
    assert_eq!(plan_dispatch(100, limits), Err(RunError::AllocationTooLarge));
    let mut limits = roomy();
    limits.max_workgroups_per_dimension = 2;
    assert!(plan_dispatch(128, limits).is_ok());
    assert_eq!(plan_dispatch(129, limits), Err(RunError::AllocationTooLarge));
    assert!(AcceleratorRun::new(129, 5, limits).is_err());
}

#[test]
fn final_slot_follows_parity() {
    assert_eq!(final_slot(0), Slot::A);
    assert_eq!(final_slot(1), Slot::B);
    assert_eq!(final_slot(50), Slot::A);
    assert_eq!(final_slot(51), Slot::B);
}

#[test]
fn accelerator_run_success_path() {
    let mut run = AcceleratorRun::new(100, 3, roomy()).unwrap();
    assert_eq!(run.stage(), Stage::Dispatching);
    let mut sources = Vec::new();
    while let Some(d) = run.next_dispatch() {
        assert_eq!(d.workgroups, 2);
        sources.push(d);
    }
    assert_eq!(
        sources,
        vec![
            StepDispatch { source: Slot::A, destination: Slot::B, workgroups: 2 },
            StepDispatch { source: Slot::B, destination: Slot::A, workgroups: 2 },
            StepDispatch { source: Slot::A, destination: Slot::B, workgroups: 2 },
        ]
    );
    assert_eq!(run.stage(), Stage::Dispatched);
    assert_eq!(run.copy_to_staging(), StagingCopy { from: Slot::B, bytes: 1600 });
    assert_eq!(run.stage(), Stage::Copied);
    assert!(!run.can_read());
    run.request_map();
    assert_eq!(run.stage(), Stage::MapRequested);
    assert!(!run.can_read());
    run.map_finished(true);
    assert!(run.can_read());
    run.mark_read();
    assert_eq!(run.stage(), Stage::Read);
    assert!(!run.can_read());
    assert_eq!(run.release(), Ok(()));
    assert_eq!(run.stage(), Stage::Unmapped);
}

#[test]
fn accelerator_run_map_failure_surfaces() {
    let mut run = AcceleratorRun::new(64, 50, roomy()).unwrap();
    let mut count = 0;
    while run.next_dispatch().is_some() {
        count += 1;
    }
    assert_eq!(count, 50);
    assert_eq!(run.copy_to_staging(), StagingCopy { from: Slot::A, bytes: 1024 });
    run.request_map();
    run.map_finished(false);
    assert_eq!(run.stage(), Stage::MapFailed);
    assert!(!run.can_read());
    assert_eq!(run.release(), Err(RunError::DeviceMapFailure));
    assert_eq!(run.stage(), Stage::Unmapped);
}

#[test]
fn accelerator_run_of_zero_steps_copies_the_start() {
    let mut run = AcceleratorRun::new(10, 0, roomy()).unwrap();
    assert_eq!(run.next_dispatch(), None);
    assert_eq!(run.copy_to_staging(), StagingCopy { from: Slot::A, bytes: 160 });
    assert_eq!(run.plan().workgroups, 1);
}

#[test]
fn interactions_of_the_reference_run() {
    assert_eq!(interaction_count(16384, 50), 13421772800);
    assert_eq!(interaction_count(2, 1), 4);
    assert_eq!(interaction_count(7, 0), 0);
    assert_eq!(interaction_count(u32::MAX, u32::MAX), (u32::MAX as u128).pow(3));
}
