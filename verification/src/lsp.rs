//! Lsp mode: open the language-server comm and report the port it listens on.
//!
//! The caller opens both sockets, sends the request of [`send_comm_open`]
//! under a fresh comm id, and then waits on IOPub with a deadline. Each wait
//! is handed to [`lsp_step`], which says whether to wait again, to report the
//! port, or to give up.

use crate::error::{ErrorKind, ErrorView, SidecarError};
use crate::event::{EventView, SidecarEvent};
use crate::json::{Json, JsonObject, JsonView, MemberView};
use crate::message::{Content, ContentView};
use crate::port::{comm_port, extract_comm_port};
use crate::text::same_text;
use crate::types::LSP_COMM_TARGET;
use crate::wait::{
    count_tagged, deciding_step, read_error, read_error_of, run_events, run_succeeded, ModeStep,
    ReadOutcome, ReadOutcomeView, StepView,
};
use vstd::prelude::*;

verus! {

/// What is reported when the deadline passes before a port was named.
pub const LSP_TIMEOUT_MESSAGE: &'static str = "Timed out waiting for Ark LSP comm response";

/// What is reported when the kernel closes the comm before it named a port.
pub const COMM_CLOSED_MESSAGE: &'static str = "Comm closed before LSP port was received";

/// The request that opens the language-server comm `comm_id`: a `comm_open`
/// for the target `positron.lsp` whose data is `{"ip_address": ip_address}`.
pub open spec fn lsp_open_request(comm_id: Seq<char>, ip_address: Seq<char>) -> ContentView {
    ContentView::CommOpen {
        comm_id,
        target_name: LSP_COMM_TARGET@,
        data: seq![MemberView { key: "ip_address"@, value: JsonView::String(ip_address) }],
    }
}

/// Builds the request that opens the language-server comm.
pub fn send_comm_open(comm_id: &str, ip_address: &str) -> (request: Content)
    ensures
        request@ == lsp_open_request(comm_id@, ip_address@),
{
    let mut data = JsonObject::new();
    data.insert("ip_address".to_string(), Json::String(ip_address.to_string()));
    assert(data@ =~= seq![
        MemberView { key: "ip_address"@, value: JsonView::String(ip_address@) },
    ]);
    Content::CommOpen {
        comm_id: comm_id.to_string(),
        target_name: LSP_COMM_TARGET.to_string(),
        data,
    }
}

/// What a message on IOPub means for the wait on comm `comm_id`: a comm
/// message of that comm ends the wait where its data announces a port; a
/// close of that comm fails it; anything else, traffic of other comms
/// included, is passed over.
pub open spec fn lsp_message_step(comm_id: Seq<char>, content: ContentView) -> StepView {
    match content {
        ContentView::CommMsg { comm_id: from, data } => if from == comm_id {
            match comm_port(data) {
                Some(port) => StepView::Finish { event: Some(EventView::LspPort { port }) },
                None => StepView::Wait,
            }
        } else {
            StepView::Wait
        },
        ContentView::CommClose { comm_id: from, .. } => if from == comm_id {
            StepView::Fail {
                error: ErrorView { kind: ErrorKind::CommClosed, message: COMM_CLOSED_MESSAGE@ },
            }
        } else {
            StepView::Wait
        },
        _ => StepView::Wait,
    }
}

/// What one wait on IOPub means for the wait on comm `comm_id`: a failed
/// read ends the run with its error, a passed deadline with a timeout.
pub open spec fn lsp_step_of(comm_id: Seq<char>, outcome: ReadOutcomeView) -> StepView {
    match outcome {
        ReadOutcomeView::Message(message) => lsp_message_step(comm_id, message.content),
        ReadOutcomeView::Failed(failure) => StepView::Fail { error: read_error_of(failure) },
        ReadOutcomeView::TimedOut => StepView::Fail {
            error: ErrorView { kind: ErrorKind::Timeout, message: LSP_TIMEOUT_MESSAGE@ },
        },
    }
}

/// Decides what Lsp mode does after one wait on IOPub.
pub fn lsp_step(comm_id: &str, outcome: &ReadOutcome) -> (step: ModeStep)
    ensures
        step@ == lsp_step_of(comm_id@, outcome@),
{
    match outcome {
        ReadOutcome::Message(message) => match &message.content {
            Content::CommMsg { comm_id: from, data } => {
                if !same_text(from.as_str(), comm_id) {
                    return ModeStep::Wait;
                }
                match extract_comm_port(data) {
                    Some(port) => ModeStep::Finish { event: Some(SidecarEvent::LspPort { port }) },
                    None => ModeStep::Wait,
                }
            },
            Content::CommClose { comm_id: from, .. } => {
                if same_text(from.as_str(), comm_id) {
                    ModeStep::Fail {
                        error: SidecarError::new(ErrorKind::CommClosed, COMM_CLOSED_MESSAGE),
                    }
                } else {
                    ModeStep::Wait
                }
            },
            _ => ModeStep::Wait,
        },
        ReadOutcome::Failed(failure) => ModeStep::Fail { error: read_error(failure) },
        ReadOutcome::TimedOut => ModeStep::Fail {
            error: SidecarError::new(ErrorKind::Timeout, LSP_TIMEOUT_MESSAGE),
        },
    }
}

/// The steps that the waits `outcomes` lead to, in order.
pub open spec fn lsp_steps(comm_id: Seq<char>, outcomes: Seq<ReadOutcomeView>) -> Seq<StepView> {
    Seq::new(outcomes.len(), |i: int| lsp_step_of(comm_id, outcomes[i]))
}

/// A step of Lsp mode that ends the run with success carries an `lsp_port`
/// event.
pub proof fn lemma_lsp_step_event(comm_id: Seq<char>, outcome: ReadOutcomeView)
    ensures
        match lsp_step_of(comm_id, outcome) {
            StepView::Finish { event } => event is Some && event->0 is LspPort,
            _ => true,
        },
{
}

proof fn lemma_lsp_deciding_step(comm_id: Seq<char>, outcomes: Seq<ReadOutcomeView>)
    ensures
        match deciding_step(lsp_steps(comm_id, outcomes)) {
            Some(StepView::Finish { event }) => event is Some && event->0 is LspPort,
            Some(StepView::Wait) => false,
            _ => true,
        },
    decreases outcomes.len(),
{
    let steps = lsp_steps(comm_id, outcomes);
    if outcomes.len() > 0 {
        lemma_lsp_step_event(comm_id, outcomes[0]);
        if steps[0] is Wait {
            assert(steps.drop_first() =~= lsp_steps(comm_id, outcomes.drop_first()));
            lemma_lsp_deciding_step(comm_id, outcomes.drop_first());
        }
    }
}

/// Lsp mode writes exactly one `lsp_port` event where it succeeds and none
/// where it does not: whatever the waits on IOPub yield, the events of the
/// run hold one event tagged `lsp_port` if the run has ended with success,
/// and no such event if it has failed or still waits.
pub proof fn lemma_lsp_port_once(comm_id: Seq<char>, outcomes: Seq<ReadOutcomeView>)
    ensures
        count_tagged(run_events(lsp_steps(comm_id, outcomes)), "lsp_port"@) == if run_succeeded(
            lsp_steps(comm_id, outcomes),
        ) {
            1nat
        } else {
            0nat
        },
{
    let steps = lsp_steps(comm_id, outcomes);
    let events = run_events(steps);
    lemma_lsp_deciding_step(comm_id, outcomes);
    reveal_strlit("lsp_port");
    reveal_strlit("error");
    assert("lsp_port"@ != "error"@) by {
        assert("lsp_port"@.len() == 8);
        assert("error"@.len() == 5);
    }
    if events.len() == 1 {
        assert(events.drop_last() =~= Seq::<EventView>::empty());
        assert(count_tagged(events.drop_last(), "lsp_port"@) == 0);
    }
}

} // verus!
