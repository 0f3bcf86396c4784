//! The decision core of one record-and-submit cycle. The device work itself
//! (allocating pools, submitting buffers, waiting for the device) happens
//! outside this crate; the driver there reports each outcome as an event and
//! this state machine decides the next action. Every device failure is fatal:
//! a pool that cannot be allocated or a buffer that cannot be recorded leaves
//! nothing to retry, so the cycle aborts, and an aborted cycle never asks for
//! any recording or submission again.
use vstd::prelude::*;

verus! {

/// Where the cycle stands. The stages follow the control flow: pools are
/// created per family, the clear then the copy sequence is recorded, both
/// buffers are submitted with the cross-queue ordering established outside,
/// and the cycle completes once the device is idle. `Aborted` is absorbing.
#[derive(Clone, Copy, Debug, PartialEq, Eq, Structural)]
pub enum CycleStage {
    CreatingPools,
    RecordingClear,
    RecordingCopy,
    Submitting,
    AwaitingIdle,
    Complete,
    Aborted,
}

/// What the outside driver reports back after performing the current action.
#[derive(Clone, Copy, Debug, PartialEq, Eq, Structural)]
pub enum CycleEvent {
    PoolsCreated,
    PoolCreationFailed,
    ClearRecorded,
    CopyRecorded,
    RecordingFailed,
    Submitted,
    SubmitFailed,
    DeviceIdle,
    WaitFailed,
}

/// What the outside driver must do next in a given stage. Only
/// `RecordClear`, `RecordCopy` and `Submit` touch command buffers.
#[derive(Clone, Copy, Debug, PartialEq, Eq, Structural)]
pub enum CycleAction {
    CreatePools,
    RecordClear,
    RecordCopy,
    Submit,
    WaitIdle,
    /// Nothing left to do: the cycle finished or was aborted.
    Stop,
}

/// The action owed in each stage.
pub open spec fn spec_next_action(stage: CycleStage) -> CycleAction {
    match stage {
        CycleStage::CreatingPools => CycleAction::CreatePools,
        CycleStage::RecordingClear => CycleAction::RecordClear,
        CycleStage::RecordingCopy => CycleAction::RecordCopy,
        CycleStage::Submitting => CycleAction::Submit,
        CycleStage::AwaitingIdle => CycleAction::WaitIdle,
        CycleStage::Complete => CycleAction::Stop,
        CycleStage::Aborted => CycleAction::Stop,
    }
}

/// The next stage after the driver reports `event` in `stage`. Each stage
/// accepts exactly the success event of its own action and moves on; every
/// failure event, and any event a stage does not expect (a programming error
/// in the driver), aborts the cycle. `Aborted` and `Complete` stay put.
pub open spec fn spec_advance(stage: CycleStage, event: CycleEvent) -> CycleStage {
    match stage {
        CycleStage::CreatingPools => match event {
            CycleEvent::PoolsCreated => CycleStage::RecordingClear,
            _ => CycleStage::Aborted,
        },
        CycleStage::RecordingClear => match event {
            CycleEvent::ClearRecorded => CycleStage::RecordingCopy,
            _ => CycleStage::Aborted,
        },
        CycleStage::RecordingCopy => match event {
            CycleEvent::CopyRecorded => CycleStage::Submitting,
            _ => CycleStage::Aborted,
        },
        CycleStage::Submitting => match event {
            CycleEvent::Submitted => CycleStage::AwaitingIdle,
            _ => CycleStage::Aborted,
        },
        CycleStage::AwaitingIdle => match event {
            CycleEvent::DeviceIdle => CycleStage::Complete,
            _ => CycleStage::Aborted,
        },
        CycleStage::Complete => CycleStage::Complete,
        CycleStage::Aborted => CycleStage::Aborted,
    }
}

/// The stage a fresh cycle starts in.
pub fn initial_stage() -> (r: CycleStage)
    ensures
        r == CycleStage::CreatingPools,
{
    CycleStage::CreatingPools
}

/// Returns the action owed in `stage`.
pub fn next_action(stage: CycleStage) -> (r: CycleAction)
    ensures
        r == spec_next_action(stage),
{
    match stage {
        CycleStage::CreatingPools => CycleAction::CreatePools,
        CycleStage::RecordingClear => CycleAction::RecordClear,
        CycleStage::RecordingCopy => CycleAction::RecordCopy,
        CycleStage::Submitting => CycleAction::Submit,
        CycleStage::AwaitingIdle => CycleAction::WaitIdle,
        CycleStage::Complete => CycleAction::Stop,
        CycleStage::Aborted => CycleAction::Stop,
    }
}

/// Advances the cycle by one reported event.
pub fn advance(stage: CycleStage, event: CycleEvent) -> (r: CycleStage)
    ensures
        r == spec_advance(stage, event),
{
    match stage {
        CycleStage::CreatingPools => match event {
            CycleEvent::PoolsCreated => CycleStage::RecordingClear,
            _ => CycleStage::Aborted,
        },
        CycleStage::RecordingClear => match event {
            CycleEvent::ClearRecorded => CycleStage::RecordingCopy,
            _ => CycleStage::Aborted,
        },
        CycleStage::RecordingCopy => match event {
            CycleEvent::CopyRecorded => CycleStage::Submitting,
            _ => CycleStage::Aborted,
        },
        CycleStage::Submitting => match event {
            CycleEvent::Submitted => CycleStage::AwaitingIdle,
            _ => CycleStage::Aborted,
        },
        CycleStage::AwaitingIdle => match event {
            CycleEvent::DeviceIdle => CycleStage::Complete,
            _ => CycleStage::Aborted,
        },
        CycleStage::Complete => CycleStage::Complete,
        CycleStage::Aborted => CycleStage::Aborted,
    }
}

/// Replays a whole run of reported events from the initial stage.
pub open spec fn spec_run(events: Seq<CycleEvent>) -> CycleStage
    decreases events.len(),
{
    if events.len() == 0 {
        CycleStage::CreatingPools
    } else {
        spec_advance(spec_run(events.drop_last()), events.last())
    }
}

/// Fatal on exhaustion: if pool allocation fails, the cycle aborts at once,
/// the aborted stage asks for no recording and no submission, and it absorbs
/// every later event — so no run that begins with a pool-allocation failure
/// ever records into or submits a buffer.
pub proof fn lemma_fatal_on_exhaustion()
    ensures
        spec_advance(CycleStage::CreatingPools, CycleEvent::PoolCreationFailed)
            == CycleStage::Aborted,
        spec_next_action(CycleStage::Aborted) == CycleAction::Stop,
        forall|e: CycleEvent| spec_advance(CycleStage::Aborted, e) == CycleStage::Aborted,
        forall|events: Seq<CycleEvent>|
            events.len() > 0 && events[0] == CycleEvent::PoolCreationFailed ==> #[trigger] spec_run(
                events,
            ) == CycleStage::Aborted,
{
    assert forall|events: Seq<CycleEvent>|
        events.len() > 0 && events[0] == CycleEvent::PoolCreationFailed implies #[trigger] spec_run(
        events,
    ) == CycleStage::Aborted by {
        lemma_run_aborted_after_failure(events);
    }
}

/// Any run whose first event is the pool-allocation failure ends aborted.
proof fn lemma_run_aborted_after_failure(events: Seq<CycleEvent>)
    requires
        events.len() > 0,
        events[0] == CycleEvent::PoolCreationFailed,
    ensures
        spec_run(events) == CycleStage::Aborted,
    decreases events.len(),
{
    if events.len() == 1 {
        assert(events.drop_last().len() == 0);
    } else {
        lemma_run_aborted_after_failure(events.drop_last());
    }
}

} // verus!
