//! Check mode: probe whether the kernel answers a `kernel_info_request`.

use crate::error::{ErrorKind, ErrorView, SidecarError};
use crate::event::{EventView, SidecarEvent};
use crate::execute::answers;
use crate::message::{Content, ContentView};
use crate::wait::{
    count_tagged, deciding_step, read_error, read_error_of, run_events, run_succeeded, ModeStep,
    ReadFailureKind, ReadOutcome, ReadOutcomeView, StepView,
};
use vstd::prelude::*;

verus! {

/// What is reported when the deadline passes before the kernel answered.
pub const CHECK_TIMEOUT_MESSAGE: &'static str = "Timed out waiting for kernel response";

/// Builds the request that probes the kernel.
pub fn kernel_info_request() -> (request: Content)
    ensures
        request@ == ContentView::KernelInfoRequest,
{
    Content::KernelInfoRequest
}

/// What one wait on the shell socket means for the probe `msg_id`: any
/// message whose parent is the probe shows that the kernel is alive, and so
/// does a reply that arrived but could not be decoded; a message with
/// another parent is passed over; a socket failure, a signature mismatch or
/// a passed deadline fails the probe.
pub open spec fn check_step_of(msg_id: Seq<char>, outcome: ReadOutcomeView) -> StepView {
    match outcome {
        ReadOutcomeView::Message(message) => if message.parent_msg_id == Some(msg_id) {
            StepView::Finish { event: Some(EventView::Alive) }
        } else {
            StepView::Wait
        },
        ReadOutcomeView::Failed(failure) => if failure.kind == ReadFailureKind::Decode {
            StepView::Finish { event: Some(EventView::Alive) }
        } else {
            StepView::Fail { error: read_error_of(failure) }
        },
        ReadOutcomeView::TimedOut => StepView::Fail {
            error: ErrorView { kind: ErrorKind::Timeout, message: CHECK_TIMEOUT_MESSAGE@ },
        },
    }
}

/// Decides what Check mode does after one wait on the shell socket for the
/// probe `msg_id`.
pub fn check_step(msg_id: &str, outcome: &ReadOutcome) -> (step: ModeStep)
    ensures
        step@ == check_step_of(msg_id@, outcome@),
{
    match outcome {
        ReadOutcome::Message(message) => if answers(message, msg_id) {
            ModeStep::Finish { event: Some(SidecarEvent::Alive) }
        } else {
            ModeStep::Wait
        },
        ReadOutcome::Failed(failure) => match failure.kind {
            ReadFailureKind::Decode => ModeStep::Finish { event: Some(SidecarEvent::Alive) },
            _ => ModeStep::Fail { error: read_error(failure) },
        },
        ReadOutcome::TimedOut => ModeStep::Fail {
            error: SidecarError::new(ErrorKind::Timeout, CHECK_TIMEOUT_MESSAGE),
        },
    }
}

/// The steps that the waits `outcomes` lead to, in order.
pub open spec fn check_steps(msg_id: Seq<char>, outcomes: Seq<ReadOutcomeView>) -> Seq<StepView> {
    Seq::new(outcomes.len(), |i: int| check_step_of(msg_id, outcomes[i]))
}

proof fn lemma_check_deciding_step(msg_id: Seq<char>, outcomes: Seq<ReadOutcomeView>)
    ensures
        match deciding_step(check_steps(msg_id, outcomes)) {
            Some(StepView::Finish { event }) => event == Some(EventView::Alive),
            Some(StepView::Wait) => false,
            _ => true,
        },
    decreases outcomes.len(),
{
    let steps = check_steps(msg_id, outcomes);
    if outcomes.len() > 0 && steps[0] is Wait {
        assert(steps.drop_first() =~= check_steps(msg_id, outcomes.drop_first()));
        lemma_check_deciding_step(msg_id, outcomes.drop_first());
    }
}

/// Check mode writes `alive` exactly where it succeeds: whatever the waits
/// on the shell socket yield, the events of the run hold one event tagged
/// `alive` if the run has ended with success, and none if it has failed or
/// still waits.
pub proof fn lemma_check_alive_once(msg_id: Seq<char>, outcomes: Seq<ReadOutcomeView>)
    ensures
        count_tagged(run_events(check_steps(msg_id, outcomes)), "alive"@) == if run_succeeded(
            check_steps(msg_id, outcomes),
        ) {
            1nat
        } else {
            0nat
        },
{
    let events = run_events(check_steps(msg_id, outcomes));
    lemma_check_deciding_step(msg_id, outcomes);
    reveal_strlit("alive");
    reveal_strlit("error");
    assert("alive"@ != "error"@) by {
        assert("alive"@[0] == 'a');
        assert("error"@[0] == 'e');
    }
    if events.len() == 1 {
        assert(events.drop_last() =~= Seq::<EventView>::empty());
        assert(count_tagged(events.drop_last(), "alive"@) == 0);
    }
}

} // verus!
