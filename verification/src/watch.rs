//! The multiplexer of watch mode.
//!
//! Watch mode waits on three sources at once: lines of standard input,
//! broadcasts on IOPub and replies on the shell socket. The caller does the
//! waiting; the functions here say what each arrival leads to, and keep the
//! table of requests that still wait for their reply.

use crate::error::{ErrorKind, ErrorView, SidecarError};
use crate::event::{event_tag, event_view, EventView, SidecarEvent, StatusName};
use crate::json::{
    lemma_lookup_pushed_other, lookup, string_member, JsonObject, JsonView, MemberView,
};
use crate::message::{
    extract_png_data, first_png, Content, ContentView, ExecutionState, KernelMessage,
    KernelMessageView, Media, MediaTypeView, Transient,
};
use crate::pending::{
    attach_comm_reply_id, lemma_reply_carries_request_id, pending_after_reply, reply_data,
    PendingComms,
};
use crate::text::{contains_text, occurs_in, same_text, string_view, text_view};
use crate::types::{
    DATA_EXPLORER_COMM_TARGET, HELP_COMM_TARGET, PLOT_COMM_TARGET, UI_COMM_TARGET,
    VARIABLES_COMM_TARGET,
};
use crate::wait::{
    error_kind_of, read_error, ReadFailure, ReadFailureView, ReadOutcome, ReadOutcomeView,
};
use vstd::prelude::*;

verus! {

/// One comm that watch mode opens at its start: the request to send, and the
/// event that tells the editor of the comm once the request is sent.
#[derive(Clone, Debug, PartialEq, Eq)]
pub struct Opening {
    pub request: Content,
    pub event: SidecarEvent,
}

/// The request that opens a comm without data.
pub open spec fn bare_open(comm_id: Seq<char>, target_name: Seq<char>) -> ContentView {
    ContentView::CommOpen { comm_id, target_name, data: Seq::empty() }
}

/// The comms that watch mode opens at its start, in order: help, UI,
/// variables, data explorer, each under the identifier given for it.
pub fn startup_openings(
    help_comm_id: &str,
    ui_comm_id: &str,
    variables_comm_id: &str,
    data_explorer_comm_id: &str,
) -> (openings: Vec<Opening>)
    ensures
        openings.len() == 4,
        openings[0].request@ == bare_open(help_comm_id@, HELP_COMM_TARGET@),
        openings[0].event@ == (EventView::HelpCommOpen {
            comm_id: help_comm_id@,
            target_name: HELP_COMM_TARGET@,
            data: None,
        }),
        openings[1].request@ == bare_open(ui_comm_id@, UI_COMM_TARGET@),
        openings[1].event@ == (EventView::UiCommOpen {
            comm_id: ui_comm_id@,
            target_name: UI_COMM_TARGET@,
            data: None,
        }),
        openings[2].request@ == bare_open(variables_comm_id@, VARIABLES_COMM_TARGET@),
        openings[2].event@ == (EventView::VariablesCommOpen {
            comm_id: variables_comm_id@,
            target_name: VARIABLES_COMM_TARGET@,
            data: None,
        }),
        openings[3].request@ == bare_open(data_explorer_comm_id@, DATA_EXPLORER_COMM_TARGET@),
        openings[3].event@ == (EventView::DataExplorerCommOpen {
            comm_id: data_explorer_comm_id@,
            target_name: DATA_EXPLORER_COMM_TARGET@,
            data: None,
        }),
{
    let mut openings: Vec<Opening> = Vec::new();
    openings.push(
        Opening {
            request: Content::CommOpen {
                comm_id: help_comm_id.to_string(),
                target_name: HELP_COMM_TARGET.to_string(),
                data: JsonObject::new(),
            },
            event: SidecarEvent::HelpCommOpen {
                comm_id: help_comm_id.to_string(),
                target_name: HELP_COMM_TARGET.to_string(),
                data: None,
            },
        },
    );
    openings.push(
        Opening {
            request: Content::CommOpen {
                comm_id: ui_comm_id.to_string(),
                target_name: UI_COMM_TARGET.to_string(),
                data: JsonObject::new(),
            },
            event: SidecarEvent::UiCommOpen {
                comm_id: ui_comm_id.to_string(),
                target_name: UI_COMM_TARGET.to_string(),
                data: None,
            },
        },
    );
    openings.push(
        Opening {
            request: Content::CommOpen {
                comm_id: variables_comm_id.to_string(),
                target_name: VARIABLES_COMM_TARGET.to_string(),
                data: JsonObject::new(),
            },
            event: SidecarEvent::VariablesCommOpen {
                comm_id: variables_comm_id.to_string(),
                target_name: VARIABLES_COMM_TARGET.to_string(),
                data: None,
            },
        },
    );
    openings.push(
        Opening {
            request: Content::CommOpen {
                comm_id: data_explorer_comm_id.to_string(),
                target_name: DATA_EXPLORER_COMM_TARGET.to_string(),
                data: JsonObject::new(),
            },
            event: SidecarEvent::DataExplorerCommOpen {
                comm_id: data_explorer_comm_id.to_string(),
                target_name: DATA_EXPLORER_COMM_TARGET.to_string(),
                data: None,
            },
        },
    );
    openings
}

/// The table after a forwarded command was handed to the shell socket: with
/// `request_id` remembered for `msg_id` where the send succeeded and the
/// command carried a request id, unchanged otherwise.
pub open spec fn pending_after_send(
    pending: Map<Seq<char>, Seq<char>>,
    msg_id: Seq<char>,
    request_id: Option<Seq<char>>,
    sent: bool,
) -> Map<Seq<char>, Seq<char>> {
    match request_id {
        Some(r) => if sent {
            pending.insert(msg_id, r)
        } else {
            pending
        },
        None => pending,
    }
}

/// Records the outcome of sending a forwarded command as message `msg_id`,
/// and decides what watch mode does next.
pub fn record_forwarded(
    pending: &mut PendingComms,
    msg_id: &str,
    request_id: Option<String>,
    sent: bool,
) -> (step: WatchStep)
    ensures
        final(pending)@ == pending_after_send(
            old(pending)@,
            msg_id@,
            string_view(request_id),
            sent,
        ),
        step@ == forwarded_step(sent),
{
    if sent {
        if let Some(request_id) = request_id {
            pending.insert(msg_id.to_string(), request_id);
        }
        WatchStep::Continue { event: None }
    } else {
        WatchStep::Fail { error: SidecarError::new(ErrorKind::Socket, SEND_MESSAGE) }
    }
}

/// The event for a display message: the first PNG payload of the bundle with
/// the display id, under the tag of the message; none without a PNG payload.
pub open spec fn plot_event(
    update: bool,
    media: Seq<MediaTypeView>,
    display_id: Option<Seq<char>>,
) -> Option<EventView> {
    match first_png(media) {
        Some(data) => if update {
            Some(EventView::UpdateDisplayData { data, display_id })
        } else {
            Some(EventView::DisplayData { data, display_id })
        },
        None => None,
    }
}

/// The display id of an optional transient block.
pub open spec fn transient_id(transient: Option<&Transient>) -> Option<Seq<char>> {
    match transient {
        Some(t) => t@,
        None => None,
    }
}

/// Builds the event for a `display_data` message, or with `update` for an
/// `update_display_data` message.
pub fn build_plot_payload(update: bool, media: &Media, transient: Option<&Transient>) -> (event:
    Option<SidecarEvent>)
    ensures
        event_view(event) == plot_event(update, media@, transient_id(transient)),
{
    let data = match extract_png_data(media) {
        Some(data) => data,
        None => {
            return None;
        },
    };
    let display_id = match transient {
        Some(t) => t.display_id.clone(),
        None => None,
    };
    if update {
        Some(SidecarEvent::UpdateDisplayData { data, display_id })
    } else {
        Some(SidecarEvent::DisplayData { data, display_id })
    }
}

/// The event for a comm that the kernel opens: by its target name, none for
/// a target that the sidecar does not know.
pub open spec fn open_event(
    comm_id: Seq<char>,
    target_name: Seq<char>,
    data: Seq<MemberView>,
) -> Option<EventView> {
    if target_name == PLOT_COMM_TARGET@ {
        Some(EventView::CommOpen { comm_id, target_name, data })
    } else if target_name == UI_COMM_TARGET@ {
        Some(EventView::UiCommOpen { comm_id, target_name, data: Some(data) })
    } else if target_name == HELP_COMM_TARGET@ {
        Some(EventView::HelpCommOpen { comm_id, target_name, data: Some(data) })
    } else if target_name == VARIABLES_COMM_TARGET@ {
        Some(EventView::VariablesCommOpen { comm_id, target_name, data: Some(data) })
    } else if target_name == DATA_EXPLORER_COMM_TARGET@ {
        Some(EventView::DataExplorerCommOpen { comm_id, target_name, data: Some(data) })
    } else {
        None
    }
}

/// The event for a comm message with the data as it is passed on: by the
/// string member `method` of the data where it names a page to show, a plain
/// `comm_msg` otherwise.
pub open spec fn msg_event(comm_id: Seq<char>, data: Seq<MemberView>) -> EventView {
    if string_member(data, "method"@) == Some("show_html_file"@) {
        EventView::ShowHtmlFile { comm_id, data }
    } else if string_member(data, "method"@) == Some("show_help"@) {
        EventView::ShowHelp { comm_id, data }
    } else {
        EventView::CommMsg { comm_id, data }
    }
}

/// The state that the editor is told for a kernel state.
pub open spec fn status_of(state: ExecutionState) -> StatusName {
    match state {
        ExecutionState::Idle => StatusName::Idle,
        ExecutionState::Busy => StatusName::Busy,
        ExecutionState::Starting => StatusName::Starting,
        ExecutionState::Other => StatusName::Unknown,
    }
}

/// The event that a message on IOPub leads to, given the table of waiting
/// requests; `None` where the message is dropped.
pub open spec fn iopub_event_of(
    message: KernelMessageView,
    pending: Map<Seq<char>, Seq<char>>,
) -> Option<EventView> {
    match message.content {
        ContentView::DisplayData { data, display_id } => plot_event(false, data, display_id),
        ContentView::UpdateDisplayData { data, display_id } => plot_event(true, data, display_id),
        ContentView::CommOpen { comm_id, target_name, data } => open_event(
            comm_id,
            target_name,
            data,
        ),
        ContentView::CommMsg { comm_id, data } => Some(
            msg_event(comm_id, reply_data(data, message.parent_msg_id, pending)),
        ),
        ContentView::CommClose { comm_id, .. } => Some(EventView::CommClose { comm_id }),
        ContentView::Status { execution_state } => Some(
            EventView::KernelStatus { status: status_of(execution_state) },
        ),
        _ => None,
    }
}

/// The event that a message on the shell socket leads to: a `comm_msg` for a
/// comm message, with the data as it is passed on; nothing for any other.
pub open spec fn shell_event_of(
    message: KernelMessageView,
    pending: Map<Seq<char>, Seq<char>>,
) -> Option<EventView> {
    match message.content {
        ContentView::CommMsg { comm_id, data } => Some(
            EventView::CommMsg {
                comm_id,
                data: reply_data(data, message.parent_msg_id, pending),
            },
        ),
        _ => None,
    }
}

/// The table after a message from the kernel: a comm message uses up the
/// entry of its parent, any other message leaves the table as it is.
pub open spec fn pending_after_message(
    message: KernelMessageView,
    pending: Map<Seq<char>, Seq<char>>,
) -> Map<Seq<char>, Seq<char>> {
    match message.content {
        ContentView::CommMsg { .. } => pending_after_reply(message.parent_msg_id, pending),
        _ => pending,
    }
}

fn parent_of(message: &KernelMessage) -> (parent: Option<&str>)
    ensures
        text_view(parent) == message@.parent_msg_id,
{
    match &message.parent_msg_id {
        Some(id) => Some(id.as_str()),
        None => None,
    }
}

fn comm_open_event(comm_id: &String, target_name: &String, data: &JsonObject) -> (event: Option<
    SidecarEvent,
>)
    ensures
        event_view(event) == open_event(comm_id@, target_name@, data@),
{
    let target = target_name.as_str();
    if same_text(target, PLOT_COMM_TARGET) {
        Some(
            SidecarEvent::CommOpen {
                comm_id: comm_id.clone(),
                target_name: target_name.clone(),
                data: data.clone(),
            },
        )
    } else if same_text(target, UI_COMM_TARGET) {
        Some(
            SidecarEvent::UiCommOpen {
                comm_id: comm_id.clone(),
                target_name: target_name.clone(),
                data: Some(data.clone()),
            },
        )
    } else if same_text(target, HELP_COMM_TARGET) {
        Some(
            SidecarEvent::HelpCommOpen {
                comm_id: comm_id.clone(),
                target_name: target_name.clone(),
                data: Some(data.clone()),
            },
        )
    } else if same_text(target, VARIABLES_COMM_TARGET) {
        Some(
            SidecarEvent::VariablesCommOpen {
                comm_id: comm_id.clone(),
                target_name: target_name.clone(),
                data: Some(data.clone()),
            },
        )
    } else if same_text(target, DATA_EXPLORER_COMM_TARGET) {
        Some(
            SidecarEvent::DataExplorerCommOpen {
                comm_id: comm_id.clone(),
                target_name: target_name.clone(),
                data: Some(data.clone()),
            },
        )
    } else {
        None
    }
}

fn comm_msg_event(comm_id: &String, data: JsonObject) -> (event: SidecarEvent)
    ensures
        event@ == msg_event(comm_id@, data@),
{
    let show_html = match data.get_str("method") {
        Some(method) => same_text(method.as_str(), "show_html_file"),
        None => false,
    };
    let show_help = match data.get_str("method") {
        Some(method) => same_text(method.as_str(), "show_help"),
        None => false,
    };
    if show_html {
        SidecarEvent::ShowHtmlFile { comm_id: comm_id.clone(), data }
    } else if show_help {
        SidecarEvent::ShowHelp { comm_id: comm_id.clone(), data }
    } else {
        SidecarEvent::CommMsg { comm_id: comm_id.clone(), data }
    }
}

/// Decides what a message read from IOPub leads to, and updates the table of
/// waiting requests.
pub fn iopub_event(message: &KernelMessage, pending: &mut PendingComms) -> (event: Option<
    SidecarEvent,
>)
    ensures
        event_view(event) == iopub_event_of(message@, old(pending)@),
        final(pending)@ == pending_after_message(message@, old(pending)@),
{
    match &message.content {
        Content::DisplayData { data, transient } => build_plot_payload(
            false,
            data,
            transient.as_ref(),
        ),
        Content::UpdateDisplayData { data, transient } => build_plot_payload(
            true,
            data,
            Some(transient),
        ),
        Content::CommOpen { comm_id, target_name, data } => comm_open_event(
            comm_id,
            target_name,
            data,
        ),
        Content::CommMsg { comm_id, data } => {
            let passed = attach_comm_reply_id(data.clone(), parent_of(message), pending);
            Some(comm_msg_event(comm_id, passed))
        },
        Content::CommClose { comm_id, .. } => Some(
            SidecarEvent::CommClose { comm_id: comm_id.clone() },
        ),
        Content::Status { execution_state } => {
            let status = match execution_state {
                ExecutionState::Idle => StatusName::Idle,
                ExecutionState::Busy => StatusName::Busy,
                ExecutionState::Starting => StatusName::Starting,
                ExecutionState::Other => StatusName::Unknown,
            };
            Some(SidecarEvent::KernelStatus { status })
        },
        _ => None,
    }
}

/// Decides what a message read from the shell socket leads to, and updates
/// the table of waiting requests.
pub fn shell_event(message: &KernelMessage, pending: &mut PendingComms) -> (event: Option<
    SidecarEvent,
>)
    ensures
        event_view(event) == shell_event_of(message@, old(pending)@),
        final(pending)@ == pending_after_message(message@, old(pending)@),
{
    match &message.content {
        Content::CommMsg { comm_id, data } => {
            let passed = attach_comm_reply_id(data.clone(), parent_of(message), pending);
            Some(SidecarEvent::CommMsg { comm_id: comm_id.clone(), data: passed })
        },
        _ => None,
    }
}

/// Whether the description of a read failure is that of a `comm_close`
/// message that lacks its `data` member.
pub open spec fn describes_comm_close_without_data(detail: Seq<char>) -> bool {
    occurs_in(detail, "comm_close"@) && occurs_in(detail, "missing field `data`"@)
}

/// Whether a read failure, by its description, is a `comm_close` message
/// that lacks its `data` member: the one decode failure that is tolerated.
pub fn is_comm_close_missing_data(detail: &str) -> (tolerated: bool)
    ensures
        tolerated == describes_comm_close_without_data(detail@),
{
    contains_text(detail, "comm_close") && contains_text(detail, "missing field `data`")
}

/// What is reported when a read on IOPub fails.
pub const IOPUB_READ_MESSAGE: &'static str = "Failed to read iopub message";

/// What is reported when a read on the shell socket fails.
pub const SHELL_READ_MESSAGE: &'static str = "Failed to read shell message";

/// What is reported when a forwarded command cannot be sent.
pub const SEND_MESSAGE: &'static str = "Failed to send message on shell";

/// What watch mode does after one arrival.
#[derive(Clone, Debug, PartialEq, Eq)]
pub enum WatchStep {
    /// Write the event, where there is one, and wait again.
    Continue { event: Option<SidecarEvent> },
    /// End the run with the error.
    Fail { error: SidecarError },
}

/// What a [`WatchStep`] stands for.
pub enum WatchStepView {
    Continue { event: Option<EventView> },
    Fail { error: ErrorView },
}

impl View for WatchStep {
    type V = WatchStepView;

    open spec fn view(&self) -> WatchStepView {
        match self {
            WatchStep::Continue { event } => WatchStepView::Continue { event: event_view(*event) },
            WatchStep::Fail { error } => WatchStepView::Fail { error: error@ },
        }
    }
}

/// What a failed read leads to in watch mode: nothing where it is a
/// `comm_close` without `data`, the end of the run with an error of the
/// read's kind and the given message otherwise.
pub open spec fn failed_read_step(failure: ReadFailureView, message: Seq<char>) -> WatchStepView {
    if describes_comm_close_without_data(failure.detail) {
        WatchStepView::Continue { event: None }
    } else {
        WatchStepView::Fail { error: ErrorView { kind: error_kind_of(failure.kind), message } }
    }
}

/// What one wait on IOPub leads to in watch mode.
pub open spec fn watch_iopub_of(
    outcome: ReadOutcomeView,
    pending: Map<Seq<char>, Seq<char>>,
) -> WatchStepView {
    match outcome {
        ReadOutcomeView::Message(message) => WatchStepView::Continue {
            event: iopub_event_of(message, pending),
        },
        ReadOutcomeView::Failed(failure) => failed_read_step(failure, IOPUB_READ_MESSAGE@),
        ReadOutcomeView::TimedOut => WatchStepView::Continue { event: None },
    }
}

/// What one wait on the shell socket leads to in watch mode.
pub open spec fn watch_shell_of(
    outcome: ReadOutcomeView,
    pending: Map<Seq<char>, Seq<char>>,
) -> WatchStepView {
    match outcome {
        ReadOutcomeView::Message(message) => WatchStepView::Continue {
            event: shell_event_of(message, pending),
        },
        ReadOutcomeView::Failed(failure) => failed_read_step(failure, SHELL_READ_MESSAGE@),
        ReadOutcomeView::TimedOut => WatchStepView::Continue { event: None },
    }
}

/// The table after one wait on a socket: changed by a message as
/// `pending_after_message` says, unchanged otherwise.
pub open spec fn pending_after_wait(
    outcome: ReadOutcomeView,
    pending: Map<Seq<char>, Seq<char>>,
) -> Map<Seq<char>, Seq<char>> {
    match outcome {
        ReadOutcomeView::Message(message) => pending_after_message(message, pending),
        _ => pending,
    }
}

fn failed_read(failure: &ReadFailure, message: &str) -> (step: WatchStep)
    ensures
        step@ == failed_read_step(failure@, message@),
{
    if is_comm_close_missing_data(failure.detail.as_str()) {
        WatchStep::Continue { event: None }
    } else {
        let kind = read_error(failure).kind;
        WatchStep::Fail { error: SidecarError::new(kind, message) }
    }
}

/// Decides what watch mode does after one wait on IOPub.
pub fn watch_iopub(outcome: &ReadOutcome, pending: &mut PendingComms) -> (step: WatchStep)
    ensures
        step@ == watch_iopub_of(outcome@, old(pending)@),
        final(pending)@ == pending_after_wait(outcome@, old(pending)@),
{
    match outcome {
        ReadOutcome::Message(message) => WatchStep::Continue {
            event: iopub_event(message, pending),
        },
        ReadOutcome::Failed(failure) => failed_read(failure, IOPUB_READ_MESSAGE),
        ReadOutcome::TimedOut => WatchStep::Continue { event: None },
    }
}

/// Decides what watch mode does after one wait on the shell socket.
pub fn watch_shell(outcome: &ReadOutcome, pending: &mut PendingComms) -> (step: WatchStep)
    ensures
        step@ == watch_shell_of(outcome@, old(pending)@),
        final(pending)@ == pending_after_wait(outcome@, old(pending)@),
{
    match outcome {
        ReadOutcome::Message(message) => WatchStep::Continue {
            event: shell_event(message, pending),
        },
        ReadOutcome::Failed(failure) => failed_read(failure, SHELL_READ_MESSAGE),
        ReadOutcome::TimedOut => WatchStep::Continue { event: None },
    }
}

/// What sending a forwarded command leads to: the next wait where the send
/// succeeded, the end of the run with a socket error where it failed.
pub open spec fn forwarded_step(sent: bool) -> WatchStepView {
    if sent {
        WatchStepView::Continue { event: None }
    } else {
        WatchStepView::Fail { error: ErrorView { kind: ErrorKind::Socket, message: SEND_MESSAGE@ } }
    }
}

/// The tag of the event that a message on IOPub leads to, read off the
/// content alone: by content type, for a comm that the kernel opens by its
/// target, for a comm message by the `method` of its data as received.
/// `None` for a content that leads to no event.
pub open spec fn iopub_tag_of(content: ContentView) -> Option<Seq<char>> {
    match content {
        ContentView::DisplayData { data, .. } => if first_png(data) is Some {
            Some("display_data"@)
        } else {
            None
        },
        ContentView::UpdateDisplayData { data, .. } => if first_png(data) is Some {
            Some("update_display_data"@)
        } else {
            None
        },
        ContentView::CommOpen { target_name, .. } => if target_name == PLOT_COMM_TARGET@ {
            Some("comm_open"@)
        } else if target_name == UI_COMM_TARGET@ {
            Some("ui_comm_open"@)
        } else if target_name == HELP_COMM_TARGET@ {
            Some("help_comm_open"@)
        } else if target_name == VARIABLES_COMM_TARGET@ {
            Some("variables_comm_open"@)
        } else if target_name == DATA_EXPLORER_COMM_TARGET@ {
            Some("data_explorer_comm_open"@)
        } else {
            None
        },
        ContentView::CommMsg { data, .. } => if string_member(data, "method"@) == Some(
            "show_html_file"@,
        ) {
            Some("show_html_file"@)
        } else if string_member(data, "method"@) == Some("show_help"@) {
            Some("show_help"@)
        } else {
            Some("comm_msg"@)
        },
        ContentView::CommClose { .. } => Some("comm_close"@),
        ContentView::Status { .. } => Some("kernel_status"@),
        ContentView::ExecuteRequest { .. } => None,
        ContentView::KernelInfoRequest => None,
        ContentView::Stream => None,
        ContentView::Other => None,
    }
}

/// Stamping a reply with a request id does not change its `method`.
pub proof fn lemma_reply_keeps_method(
    data: Seq<MemberView>,
    parent: Option<Seq<char>>,
    pending: Map<Seq<char>, Seq<char>>,
)
    ensures
        string_member(reply_data(data, parent, pending), "method"@) == string_member(
            data,
            "method"@,
        ),
{
    reveal_strlit("method");
    reveal_strlit("id");
    assert("method"@ != "id"@) by {
        assert("method"@.len() == 6);
        assert("id"@.len() == 2);
    }
    if reply_data(data, parent, pending) != data {
        let p = parent->0;
        lemma_lookup_pushed_other(
            data,
            "id"@,
            JsonView::String(pending[p]),
            "method"@,
        );
    }
}

/// Every message on IOPub is reported under the tag that its content calls
/// for, whatever the table of waiting requests holds, and a content that
/// calls for none leads to no event.
pub proof fn lemma_iopub_event_tag(message: KernelMessageView, pending: Map<Seq<char>, Seq<char>>)
    ensures
        match iopub_event_of(message, pending) {
            Some(event) => iopub_tag_of(message.content) == Some(event_tag(event)),
            None => iopub_tag_of(message.content) is None,
        },
{
    match message.content {
        ContentView::CommMsg { comm_id, data } => {
            lemma_reply_keeps_method(data, message.parent_msg_id, pending);
        },
        _ => {},
    }
}

/// A reply on IOPub to a forwarded command is reported with the command's
/// request id: after a command with request id `request_id` was sent as
/// message `msg_id`, a comm message whose parent is `msg_id` and whose data
/// has no `id` leads to an event whose data has `id` equal to `request_id`;
/// one whose data has an `id` leads to an event with the data as received.
/// Either way the table is then what it was before the command, without
/// `msg_id`.
pub proof fn lemma_forward_then_reply(
    pending: Map<Seq<char>, Seq<char>>,
    msg_id: Seq<char>,
    request_id: Seq<char>,
    comm_id: Seq<char>,
    data: Seq<MemberView>,
)
    ensures
        ({
            let remembered = pending_after_send(pending, msg_id, Some(request_id), true);
            let reply = KernelMessageView {
                parent_msg_id: Some(msg_id),
                content: ContentView::CommMsg { comm_id, data },
            };
            let passed = reply_data(data, Some(msg_id), remembered);
            &&& iopub_event_of(reply, remembered) == Some(msg_event(comm_id, passed))
            &&& shell_event_of(reply, remembered) == Some(
                EventView::CommMsg { comm_id, data: passed },
            )
            &&& lookup(data, "id"@) is None ==> lookup(passed, "id"@)
                == Some(JsonView::String(request_id))
            &&& lookup(data, "id"@) is Some ==> passed == data
            &&& pending_after_message(reply, remembered) == pending.remove(msg_id)
            &&& pending == Map::<Seq<char>, Seq<char>>::empty() ==> pending_after_message(
                reply,
                remembered,
            ) == Map::<Seq<char>, Seq<char>>::empty()
        }),
{
    lemma_reply_carries_request_id(pending, msg_id, request_id, data);
}

} // verus!
