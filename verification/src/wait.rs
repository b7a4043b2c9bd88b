//! What a wait on a socket yields, and how long a deadlined wait may last.

use crate::error::{ErrorKind, ErrorView, SidecarError};
use crate::event::{event_tag, EventView, SidecarEvent};
use crate::json::{parsed_json, JsonView};
use crate::message::{
    recover_content, recovered_content, Content, ContentView, KernelMessage, KernelMessageView,
};
use crate::text::string_view;
use crate::wire::WireError;
use vstd::prelude::*;

verus! {

/// Why a read failed.
#[derive(Clone, Copy, Debug, PartialEq, Eq, Structural)]
pub enum ReadFailureKind {
    /// The socket failed.
    Socket,
    /// The message's signature did not match.
    SignatureMismatch,
    /// The message's frames or content could not be decoded.
    Decode,
}

/// A failed read: its kind, the message for the editor and the full
/// description of the failure.
#[derive(Clone, Debug, PartialEq, Eq)]
pub struct ReadFailure {
    pub kind: ReadFailureKind,
    pub message: String,
    pub detail: String,
}

/// What one wait on a socket yielded.
#[derive(Clone, Debug, PartialEq, Eq)]
pub enum ReadOutcome {
    /// A message arrived.
    Message(KernelMessage),
    /// The read failed.
    Failed(ReadFailure),
    /// The deadline passed first.
    TimedOut,
}

/// What a [`ReadFailure`] stands for.
pub struct ReadFailureView {
    pub kind: ReadFailureKind,
    pub message: Seq<char>,
    pub detail: Seq<char>,
}

/// What a [`ReadOutcome`] stands for.
pub enum ReadOutcomeView {
    Message(KernelMessageView),
    Failed(ReadFailureView),
    TimedOut,
}

impl View for ReadFailure {
    type V = ReadFailureView;

    open spec fn view(&self) -> ReadFailureView {
        ReadFailureView { kind: self.kind, message: self.message@, detail: self.detail@ }
    }
}

impl View for ReadOutcome {
    type V = ReadOutcomeView;

    open spec fn view(&self) -> ReadOutcomeView {
        match self {
            ReadOutcome::Message(m) => ReadOutcomeView::Message(m@),
            ReadOutcome::Failed(f) => ReadOutcomeView::Failed(f@),
            ReadOutcome::TimedOut => ReadOutcomeView::TimedOut,
        }
    }
}

/// The kind of fatal error that a failed read is.
pub open spec fn error_kind_of(kind: ReadFailureKind) -> ErrorKind {
    match kind {
        ReadFailureKind::Socket => ErrorKind::Socket,
        ReadFailureKind::SignatureMismatch => ErrorKind::SignatureMismatch,
        ReadFailureKind::Decode => ErrorKind::Decode,
    }
}

/// The fatal error that a failed read is: of the read's kind, with the
/// read's message.
pub open spec fn read_error_of(failure: ReadFailureView) -> ErrorView {
    ErrorView { kind: error_kind_of(failure.kind), message: failure.message }
}

/// The fatal error that a failed read is.
pub fn read_error(failure: &ReadFailure) -> (error: SidecarError)
    ensures
        error@ == read_error_of(failure@),
{
    let kind = match failure.kind {
        ReadFailureKind::Socket => ErrorKind::Socket,
        ReadFailureKind::SignatureMismatch => ErrorKind::SignatureMismatch,
        ReadFailureKind::Decode => ErrorKind::Decode,
    };
    SidecarError { kind, message: failure.message.clone() }
}

/// What a message's decoder made of its content.
pub open spec fn decoded_view(decoded: Result<Content, ReadFailure>) -> Result<
    ContentView,
    ReadFailureView,
> {
    match decoded {
        Ok(content) => Ok(content@),
        Err(failure) => Err(failure@),
    }
}

/// What reading a message with checked frames yields: the message with the
/// content as decoded; where the decoder refused the content, the message
/// with the content as recovered from the content frame; the decoder's
/// failure where nothing is recovered.
pub open spec fn decoded_outcome_of(
    msg_type: Seq<char>,
    parent_msg_id: Option<Seq<char>>,
    decoded: Result<ContentView, ReadFailureView>,
    content: Option<JsonView>,
) -> ReadOutcomeView {
    match decoded {
        Ok(c) => ReadOutcomeView::Message(KernelMessageView { parent_msg_id, content: c }),
        Err(failure) => match recovered_content(msg_type, content) {
            Some(c) => ReadOutcomeView::Message(KernelMessageView { parent_msg_id, content: c }),
            None => ReadOutcomeView::Failed(failure),
        },
    }
}

/// Decides what reading a message with checked frames yields, from its
/// message type, the id of its parent, what the decoder made of its content
/// and the text of its content frame.
pub fn decoded_outcome(
    msg_type: &str,
    parent_msg_id: Option<String>,
    decoded: Result<Content, ReadFailure>,
    content: &str,
) -> (outcome: ReadOutcome)
    ensures
        outcome@ == decoded_outcome_of(
            msg_type@,
            string_view(parent_msg_id),
            decoded_view(decoded),
            parsed_json(content@),
        ),
{
    match decoded {
        Ok(c) => ReadOutcome::Message(KernelMessage { parent_msg_id, content: c }),
        Err(failure) => match recover_content(msg_type, content) {
            Some(c) => ReadOutcome::Message(KernelMessage { parent_msg_id, content: c }),
            None => ReadOutcome::Failed(failure),
        },
    }
}

/// The kind of failed read that a failure to take frames apart is: a
/// signature mismatch is itself, anything else is a failure to decode.
pub open spec fn wire_failure_kind(error: WireError) -> ReadFailureKind {
    match error {
        WireError::SignatureMismatch => ReadFailureKind::SignatureMismatch,
        _ => ReadFailureKind::Decode,
    }
}

/// The message that reports a failure to make frames or take them apart.
pub open spec fn wire_error_message(error: WireError) -> Seq<char> {
    match error {
        WireError::MissingDelimiter => "Missing delimiter"@,
        WireError::MissingSignature => "Missing hmac"@,
        WireError::InsufficientParts => "Insufficient message parts"@,
        WireError::TooLong => "Message too long to sign"@,
        WireError::SignatureMismatch => "Signature mismatch"@,
    }
}

/// The message that reports a failure to make frames or take them apart.
pub fn wire_message(error: WireError) -> (message: &'static str)
    ensures
        message@ == wire_error_message(error),
{
    match error {
        WireError::MissingDelimiter => "Missing delimiter",
        WireError::MissingSignature => "Missing hmac",
        WireError::InsufficientParts => "Insufficient message parts",
        WireError::TooLong => "Message too long to sign",
        WireError::SignatureMismatch => "Signature mismatch",
    }
}

/// The failed read that a failure to take frames apart is.
pub fn wire_failure(error: WireError) -> (failure: ReadFailure)
    ensures
        failure@ == (ReadFailureView {
            kind: wire_failure_kind(error),
            message: wire_error_message(error),
            detail: wire_error_message(error),
        }),
{
    let kind = match error {
        WireError::SignatureMismatch => ReadFailureKind::SignatureMismatch,
        _ => ReadFailureKind::Decode,
    };
    ReadFailure {
        kind,
        message: wire_message(error).to_string(),
        detail: wire_message(error).to_string(),
    }
}

/// How long a wait may still last when `elapsed_ms` of `timeout_ms` have
/// passed; `None` once nothing is left.
pub open spec fn remaining_of(timeout_ms: u64, elapsed_ms: u64) -> Option<u64> {
    if elapsed_ms < timeout_ms {
        Some((timeout_ms - elapsed_ms) as u64)
    } else {
        None
    }
}

/// How long a deadlined wait may still last; `None` means that the deadline
/// has passed and the wait has timed out.
pub fn remaining_wait(timeout_ms: u64, elapsed_ms: u64) -> (remaining: Option<u64>)
    ensures
        remaining == remaining_of(timeout_ms, elapsed_ms),
{
    if elapsed_ms < timeout_ms {
        Some(timeout_ms - elapsed_ms)
    } else {
        None
    }
}

/// What a mode does after one wait.
#[derive(Clone, Debug, PartialEq, Eq)]
pub enum ModeStep {
    /// Wait again.
    Wait,
    /// End the run with success, after writing the event, where there is one.
    Finish { event: Option<SidecarEvent> },
    /// End the run with the error.
    Fail { error: SidecarError },
}

/// What a [`ModeStep`] stands for.
pub enum StepView {
    Wait,
    Finish { event: Option<EventView> },
    Fail { error: ErrorView },
}

impl View for ModeStep {
    type V = StepView;

    open spec fn view(&self) -> StepView {
        match self {
            ModeStep::Wait => StepView::Wait,
            ModeStep::Finish { event } => StepView::Finish {
                event: match event {
                    Some(e) => Some(e@),
                    None => None,
                },
            },
            ModeStep::Fail { error } => StepView::Fail { error: error@ },
        }
    }
}

/// The step that ends a run: the first of `steps` that is not `Wait`.
pub open spec fn deciding_step(steps: Seq<StepView>) -> Option<StepView>
    decreases steps.len(),
{
    if steps.len() == 0 {
        None
    } else if steps[0] is Wait {
        deciding_step(steps.drop_first())
    } else {
        Some(steps[0])
    }
}

/// The events that a run writes whose waits lead to `steps`: none while it
/// waits, then the event of the step that ends it, which for a failure is
/// the `error` event with the failure's message.
pub open spec fn run_events(steps: Seq<StepView>) -> Seq<EventView> {
    match deciding_step(steps) {
        Some(StepView::Finish { event: Some(e) }) => seq![e],
        Some(StepView::Fail { error }) => seq![EventView::Error { message: error.message }],
        _ => Seq::empty(),
    }
}

/// Whether a run whose waits lead to `steps` has ended with success.
pub open spec fn run_succeeded(steps: Seq<StepView>) -> bool {
    deciding_step(steps) matches Some(StepView::Finish { .. })
}

/// How many of `events` are written under `tag`.
pub open spec fn count_tagged(events: Seq<EventView>, tag: Seq<char>) -> nat
    decreases events.len(),
{
    if events.len() == 0 {
        0
    } else {
        count_tagged(events.drop_last(), tag) + if event_tag(events.last()) == tag {
            1nat
        } else {
            0nat
        }
    }
}

} // verus!
