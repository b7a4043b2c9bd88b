//! Execute mode: send one execute request and, where asked, wait until the
//! kernel reports that it is idle again.

use crate::error::{ErrorKind, ErrorView, SidecarError};
use crate::message::{Content, ContentView, ExecutionState, KernelMessage, KernelMessageView};
use crate::text::same_text;
use crate::wait::{read_error, read_error_of, ModeStep, ReadOutcome, ReadOutcomeView, StepView};
use vstd::prelude::*;

verus! {

/// What is reported when the deadline passes before the kernel was idle.
pub const IDLE_TIMEOUT_MESSAGE: &'static str = "Timed out waiting for iopub idle";

/// Builds the request that runs `code`.
pub fn execute_request(code: &str) -> (request: Content)
    ensures
        request@ == (ContentView::ExecuteRequest { code: code@ }),
{
    Content::ExecuteRequest { code: code.to_string() }
}

/// Whether `message` reports that the kernel is idle after the request
/// `msg_id`: a `status` message whose parent is `msg_id` and whose state is
/// `idle`.
pub open spec fn reports_idle(msg_id: Seq<char>, message: KernelMessageView) -> bool {
    message.parent_msg_id == Some(msg_id) && message.content == (ContentView::Status {
        execution_state: ExecutionState::Idle,
    })
}

/// What one wait on IOPub means for the wait for idle: it ends with success
/// at the message that reports idle, passes over any other message, and
/// fails on a failed read or a passed deadline.
pub open spec fn idle_step_of(msg_id: Seq<char>, outcome: ReadOutcomeView) -> StepView {
    match outcome {
        ReadOutcomeView::Message(message) => if reports_idle(msg_id, message) {
            StepView::Finish { event: None }
        } else {
            StepView::Wait
        },
        ReadOutcomeView::Failed(failure) => StepView::Fail { error: read_error_of(failure) },
        ReadOutcomeView::TimedOut => StepView::Fail {
            error: ErrorView { kind: ErrorKind::Timeout, message: IDLE_TIMEOUT_MESSAGE@ },
        },
    }
}

/// Whether the parent of `message` is the message `msg_id`.
pub fn answers(message: &KernelMessage, msg_id: &str) -> (yes: bool)
    ensures
        yes == (message@.parent_msg_id == Some(msg_id@)),
{
    match &message.parent_msg_id {
        Some(parent) => same_text(parent.as_str(), msg_id),
        None => false,
    }
}

/// Decides what Execute mode does after one wait on IOPub for the request
/// `msg_id`.
pub fn idle_step(msg_id: &str, outcome: &ReadOutcome) -> (step: ModeStep)
    ensures
        step@ == idle_step_of(msg_id@, outcome@),
{
    match outcome {
        ReadOutcome::Message(message) => {
            if !answers(message, msg_id) {
                return ModeStep::Wait;
            }
            match &message.content {
                Content::Status { execution_state } => match execution_state {
                    ExecutionState::Idle => ModeStep::Finish { event: None },
                    _ => ModeStep::Wait,
                },
                _ => ModeStep::Wait,
            }
        },
        ReadOutcome::Failed(failure) => ModeStep::Fail { error: read_error(failure) },
        ReadOutcome::TimedOut => ModeStep::Fail {
            error: SidecarError::new(ErrorKind::Timeout, IDLE_TIMEOUT_MESSAGE),
        },
    }
}

} // verus!
