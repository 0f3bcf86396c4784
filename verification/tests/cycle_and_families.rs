use vk_sync::cycle::{advance, initial_stage, next_action, CycleAction, CycleEvent, CycleStage};
use vk_sync::families::{FamilyCapabilities, QueueFamilies, QueueFamilyError};

#[test]
fn cycle_happy_path() {
    let mut stage = initial_stage();
    assert_eq!(next_action(stage), CycleAction::CreatePools);
    stage = advance(stage, CycleEvent::PoolsCreated);
    assert_eq!(next_action(stage), CycleAction::RecordClear);
    stage = advance(stage, CycleEvent::ClearRecorded);
    assert_eq!(next_action(stage), CycleAction::RecordCopy);
    stage = advance(stage, CycleEvent::CopyRecorded);
    assert_eq!(next_action(stage), CycleAction::Submit);
    stage = advance(stage, CycleEvent::Submitted);
    assert_eq!(next_action(stage), CycleAction::WaitIdle);
    stage = advance(stage, CycleEvent::DeviceIdle);
    assert_eq!(stage, CycleStage::Complete);
    assert_eq!(next_action(stage), CycleAction::Stop);
}

#[test]
fn pool_allocation_failure_aborts_before_any_recording() {
    // Simulated pool-allocation failure: the cycle aborts at once, asks for
    // no recording or submission, and stays aborted whatever comes later.
    let stage = advance(initial_stage(), CycleEvent::PoolCreationFailed);
    assert_eq!(stage, CycleStage::Aborted);
    assert_eq!(next_action(stage), CycleAction::Stop);
    let events = [
        CycleEvent::PoolsCreated,
        CycleEvent::ClearRecorded,
        CycleEvent::CopyRecorded,
        CycleEvent::Submitted,
        CycleEvent::DeviceIdle,
    ];
    let mut later = stage;
    for e in events {
        later = advance(later, e);
        assert_eq!(later, CycleStage::Aborted);
        assert_eq!(next_action(later), CycleAction::Stop);
    }
}

#[test]
fn recording_failure_aborts() {
    let mut stage = advance(initial_stage(), CycleEvent::PoolsCreated);
    stage = advance(stage, CycleEvent::RecordingFailed);
    assert_eq!(stage, CycleStage::Aborted);
}

#[test]
fn submit_and_wait_failures_abort() {
    let mut stage = advance(initial_stage(), CycleEvent::PoolsCreated);
    stage = advance(stage, CycleEvent::ClearRecorded);
    stage = advance(stage, CycleEvent::CopyRecorded);
    let failed_submit = advance(stage, CycleEvent::SubmitFailed);
    assert_eq!(failed_submit, CycleStage::Aborted);
    let submitted = advance(stage, CycleEvent::Submitted);
    let failed_wait = advance(submitted, CycleEvent::WaitFailed);
    assert_eq!(failed_wait, CycleStage::Aborted);
}

fn caps(compute: bool, transfer: bool) -> FamilyCapabilities {
    FamilyCapabilities { compute, transfer }
}

#[test]
fn select_picks_first_matching_family_per_role() {
    let families = vec![caps(false, true), caps(true, false), caps(true, true)];
    let qf = QueueFamilies::select(&families).unwrap();
    assert_eq!(qf.get_compute_index(), 1);
    assert_eq!(qf.get_transfer_index(), 0);
}

#[test]
fn select_allows_roles_to_alias() {
    let families = vec![caps(false, false), caps(true, true)];
    let qf = QueueFamilies::select(&families).unwrap();
    assert_eq!(qf.get_compute_index(), 1);
    assert_eq!(qf.get_transfer_index(), 1);
}

#[test]
fn select_fails_without_compute_family() {
    let families = vec![caps(false, true), caps(false, false)];
    assert_eq!(
        QueueFamilies::select(&families).unwrap_err(),
        QueueFamilyError::NoComputeFamily
    );
    assert_eq!(
        QueueFamilies::select(&Vec::new()).unwrap_err(),
        QueueFamilyError::NoComputeFamily
    );
}

#[test]
fn select_fails_without_transfer_family() {
    let families = vec![caps(true, false)];
    assert_eq!(
        QueueFamilies::select(&families).unwrap_err(),
        QueueFamilyError::NoTransferFamily
    );
}
