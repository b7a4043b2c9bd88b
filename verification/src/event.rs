//! The events that the sidecar writes for the editor.

use crate::json::{
    render_json, rendered_json, Json, JsonObject, JsonView, MemberView, NumberView,
};
use crate::text::{decimal_digits, string_view};
use vstd::prelude::*;

verus! {

/// The kernel states that the editor is told of.
#[derive(Clone, Copy, Debug, PartialEq, Eq, Structural)]
pub enum StatusName {
    Idle,
    Busy,
    Starting,
    Unknown,
}

/// One event for the editor. Each is written as one line of JSON whose
/// `event` member is the event's tag.
#[derive(Clone, Debug, PartialEq, Eq)]
#[allow(inconsistent_fields)]
pub enum SidecarEvent {
    LspPort { port: u16 },
    Error { message: String },
    KernelStatus { status: StatusName },
    Alive,
    CommOpen { comm_id: String, target_name: String, data: JsonObject },
    UiCommOpen { comm_id: String, target_name: String, data: Option<JsonObject> },
    HelpCommOpen { comm_id: String, target_name: String, data: Option<JsonObject> },
    VariablesCommOpen { comm_id: String, target_name: String, data: Option<JsonObject> },
    DataExplorerCommOpen { comm_id: String, target_name: String, data: Option<JsonObject> },
    CommMsg { comm_id: String, data: JsonObject },
    CommClose { comm_id: String },
    ShowHtmlFile { comm_id: String, data: JsonObject },
    ShowHelp { comm_id: String, data: JsonObject },
    DisplayData { data: String, display_id: Option<String> },
    UpdateDisplayData { data: String, display_id: Option<String> },
}

/// What a [`SidecarEvent`] stands for.
#[allow(inconsistent_fields)]
pub enum EventView {
    LspPort { port: u16 },
    Error { message: Seq<char> },
    KernelStatus { status: StatusName },
    Alive,
    CommOpen { comm_id: Seq<char>, target_name: Seq<char>, data: Seq<MemberView> },
    UiCommOpen { comm_id: Seq<char>, target_name: Seq<char>, data: Option<Seq<MemberView>> },
    HelpCommOpen { comm_id: Seq<char>, target_name: Seq<char>, data: Option<Seq<MemberView>> },
    VariablesCommOpen { comm_id: Seq<char>, target_name: Seq<char>, data: Option<Seq<MemberView>> },
    DataExplorerCommOpen {
        comm_id: Seq<char>,
        target_name: Seq<char>,
        data: Option<Seq<MemberView>>,
    },
    CommMsg { comm_id: Seq<char>, data: Seq<MemberView> },
    CommClose { comm_id: Seq<char> },
    ShowHtmlFile { comm_id: Seq<char>, data: Seq<MemberView> },
    ShowHelp { comm_id: Seq<char>, data: Seq<MemberView> },
    DisplayData { data: Seq<char>, display_id: Option<Seq<char>> },
    UpdateDisplayData { data: Seq<char>, display_id: Option<Seq<char>> },
}

/// The members of an optional object.
pub open spec fn object_view(object: Option<JsonObject>) -> Option<Seq<MemberView>> {
    match object {
        Some(o) => Some(o@),
        None => None,
    }
}

impl View for SidecarEvent {
    type V = EventView;

    open spec fn view(&self) -> EventView {
        match self {
            SidecarEvent::LspPort { port } => EventView::LspPort { port: *port },
            SidecarEvent::Error { message } => EventView::Error { message: message@ },
            SidecarEvent::KernelStatus { status } => EventView::KernelStatus { status: *status },
            SidecarEvent::Alive => EventView::Alive,
            SidecarEvent::CommOpen { comm_id, target_name, data } => EventView::CommOpen {
                comm_id: comm_id@,
                target_name: target_name@,
                data: data@,
            },
            SidecarEvent::UiCommOpen { comm_id, target_name, data } => EventView::UiCommOpen {
                comm_id: comm_id@,
                target_name: target_name@,
                data: object_view(*data),
            },
            SidecarEvent::HelpCommOpen { comm_id, target_name, data } => EventView::HelpCommOpen {
                comm_id: comm_id@,
                target_name: target_name@,
                data: object_view(*data),
            },
            SidecarEvent::VariablesCommOpen {
                comm_id,
                target_name,
                data,
            } => EventView::VariablesCommOpen {
                comm_id: comm_id@,
                target_name: target_name@,
                data: object_view(*data),
            },
            SidecarEvent::DataExplorerCommOpen {
                comm_id,
                target_name,
                data,
            } => EventView::DataExplorerCommOpen {
                comm_id: comm_id@,
                target_name: target_name@,
                data: object_view(*data),
            },
            SidecarEvent::CommMsg { comm_id, data } => EventView::CommMsg {
                comm_id: comm_id@,
                data: data@,
            },
            SidecarEvent::CommClose { comm_id } => EventView::CommClose { comm_id: comm_id@ },
            SidecarEvent::ShowHtmlFile { comm_id, data } => EventView::ShowHtmlFile {
                comm_id: comm_id@,
                data: data@,
            },
            SidecarEvent::ShowHelp { comm_id, data } => EventView::ShowHelp {
                comm_id: comm_id@,
                data: data@,
            },
            SidecarEvent::DisplayData { data, display_id } => EventView::DisplayData {
                data: data@,
                display_id: string_view(*display_id),
            },
            SidecarEvent::UpdateDisplayData {
                data,
                display_id,
            } => EventView::UpdateDisplayData {
                data: data@,
                display_id: string_view(*display_id),
            },
        }
    }
}

/// What an optional event stands for.
pub open spec fn event_view(event: Option<SidecarEvent>) -> Option<EventView> {
    match event {
        Some(e) => Some(e@),
        None => None,
    }
}

/// The tag under which an event is written: the value of its `event` member.
pub open spec fn event_tag(event: EventView) -> Seq<char> {
    match event {
        EventView::LspPort { .. } => "lsp_port"@,
        EventView::Error { .. } => "error"@,
        EventView::KernelStatus { .. } => "kernel_status"@,
        EventView::Alive => "alive"@,
        EventView::CommOpen { .. } => "comm_open"@,
        EventView::UiCommOpen { .. } => "ui_comm_open"@,
        EventView::HelpCommOpen { .. } => "help_comm_open"@,
        EventView::VariablesCommOpen { .. } => "variables_comm_open"@,
        EventView::DataExplorerCommOpen { .. } => "data_explorer_comm_open"@,
        EventView::CommMsg { .. } => "comm_msg"@,
        EventView::CommClose { .. } => "comm_close"@,
        EventView::ShowHtmlFile { .. } => "show_html_file"@,
        EventView::ShowHelp { .. } => "show_help"@,
        EventView::DisplayData { .. } => "display_data"@,
        EventView::UpdateDisplayData { .. } => "update_display_data"@,
    }
}

/// The word by which a kernel state is written.
pub open spec fn status_word(status: StatusName) -> Seq<char> {
    match status {
        StatusName::Idle => "idle"@,
        StatusName::Busy => "busy"@,
        StatusName::Starting => "starting"@,
        StatusName::Unknown => "unknown"@,
    }
}

impl StatusName {
    /// The word by which this state is written.
    pub fn as_str(&self) -> (word: &'static str)
        ensures
            word@ == status_word(*self),
    {
        match self {
            StatusName::Idle => "idle",
            StatusName::Busy => "busy",
            StatusName::Starting => "starting",
            StatusName::Unknown => "unknown",
        }
    }
}

impl SidecarEvent {
    /// The tag under which this event is written.
    pub fn tag(&self) -> (tag: &'static str)
        ensures
            tag@ == event_tag(self@),
    {
        match self {
            SidecarEvent::LspPort { .. } => "lsp_port",
            SidecarEvent::Error { .. } => "error",
            SidecarEvent::KernelStatus { .. } => "kernel_status",
            SidecarEvent::Alive => "alive",
            SidecarEvent::CommOpen { .. } => "comm_open",
            SidecarEvent::UiCommOpen { .. } => "ui_comm_open",
            SidecarEvent::HelpCommOpen { .. } => "help_comm_open",
            SidecarEvent::VariablesCommOpen { .. } => "variables_comm_open",
            SidecarEvent::DataExplorerCommOpen { .. } => "data_explorer_comm_open",
            SidecarEvent::CommMsg { .. } => "comm_msg",
            SidecarEvent::CommClose { .. } => "comm_close",
            SidecarEvent::ShowHtmlFile { .. } => "show_html_file",
            SidecarEvent::ShowHelp { .. } => "show_help",
            SidecarEvent::DisplayData { .. } => "display_data",
            SidecarEvent::UpdateDisplayData { .. } => "update_display_data",
        }
    }
}

/// A member whose value is a string.
pub open spec fn text_member(key: Seq<char>, value: Seq<char>) -> MemberView {
    MemberView { key, value: JsonView::String(value) }
}

/// The member `event` that carries an event's tag.
pub open spec fn tag_member(event: EventView) -> MemberView {
    text_member("event"@, event_tag(event))
}

/// The members of an event that tells of an opened comm: tag, comm id and
/// target name, and the data where there is any.
pub open spec fn opened_members(
    event: EventView,
    comm_id: Seq<char>,
    target_name: Seq<char>,
    data: Option<Seq<MemberView>>,
) -> Seq<MemberView> {
    let head = seq![
        tag_member(event),
        text_member("comm_id"@, comm_id),
        text_member("target_name"@, target_name),
    ];
    match data {
        Some(d) => head.push(MemberView { key: "data"@, value: JsonView::Object(d) }),
        None => head,
    }
}

/// The members of an event that carries the data of a comm message.
pub open spec fn data_members(event: EventView, comm_id: Seq<char>, data: Seq<MemberView>) -> Seq<
    MemberView,
> {
    seq![
        tag_member(event),
        text_member("comm_id"@, comm_id),
        MemberView { key: "data"@, value: JsonView::Object(data) },
    ]
}

/// The members of an event that carries an image: tag, payload and display
/// id, which is `null` where the message had none.
pub open spec fn image_members(
    event: EventView,
    data: Seq<char>,
    display_id: Option<Seq<char>>,
) -> Seq<MemberView> {
    seq![
        tag_member(event),
        text_member("data"@, data),
        MemberView {
            key: "display_id"@,
            value: match display_id {
                Some(id) => JsonView::String(id),
                None => JsonView::Null,
            },
        },
    ]
}

/// The JSON object that an event is written as: first its tag under
/// `event`, then its fields in their order.
pub open spec fn event_members(event: EventView) -> Seq<MemberView> {
    match event {
        EventView::LspPort { port } => seq![
            tag_member(event),
            MemberView {
                key: "port"@,
                value: JsonView::Number(
                    NumberView { text: decimal_digits(port as nat), unsigned: Some(port as u64) },
                ),
            },
        ],
        EventView::Error { message } => seq![tag_member(event), text_member("message"@, message)],
        EventView::KernelStatus { status } => seq![
            tag_member(event),
            text_member("status"@, status_word(status)),
        ],
        EventView::Alive => seq![tag_member(event)],
        EventView::CommOpen { comm_id, target_name, data } => opened_members(
            event,
            comm_id,
            target_name,
            Some(data),
        ),
        EventView::UiCommOpen { comm_id, target_name, data } => opened_members(
            event,
            comm_id,
            target_name,
            data,
        ),
        EventView::HelpCommOpen { comm_id, target_name, data } => opened_members(
            event,
            comm_id,
            target_name,
            data,
        ),
        EventView::VariablesCommOpen { comm_id, target_name, data } => opened_members(
            event,
            comm_id,
            target_name,
            data,
        ),
        EventView::DataExplorerCommOpen { comm_id, target_name, data } => opened_members(
            event,
            comm_id,
            target_name,
            data,
        ),
        EventView::CommMsg { comm_id, data } => data_members(event, comm_id, data),
        EventView::CommClose { comm_id } => seq![
            tag_member(event),
            text_member("comm_id"@, comm_id),
        ],
        EventView::ShowHtmlFile { comm_id, data } => data_members(event, comm_id, data),
        EventView::ShowHelp { comm_id, data } => data_members(event, comm_id, data),
        EventView::DisplayData { data, display_id } => image_members(event, data, display_id),
        EventView::UpdateDisplayData { data, display_id } => image_members(
            event,
            data,
            display_id,
        ),
    }
}

/// The line that an event is written as.
pub open spec fn event_line(event: EventView) -> Seq<char> {
    rendered_json(JsonView::Object(event_members(event)))
}

impl SidecarEvent {
    fn opened(&self, comm_id: &String, target_name: &String, data: Option<&JsonObject>) -> (out:
        JsonObject)
        ensures
            out@ == opened_members(
                self@,
                comm_id@,
                target_name@,
                match data {
                    Some(d) => Some(d@),
                    None => None,
                },
            ),
    {
        let mut out = JsonObject::new();
        out.push("event", Json::string(self.tag()));
        out.push("comm_id", Json::string(comm_id.as_str()));
        out.push("target_name", Json::string(target_name.as_str()));
        if let Some(d) = data {
            out.push("data", d.clone().into_json());
        }
        out
    }

    fn with_data(&self, comm_id: &String, data: &JsonObject) -> (out: JsonObject)
        ensures
            out@ == data_members(self@, comm_id@, data@),
    {
        let mut out = JsonObject::new();
        out.push("event", Json::string(self.tag()));
        out.push("comm_id", Json::string(comm_id.as_str()));
        out.push("data", data.clone().into_json());
        out
    }

    fn image(&self, data: &String, display_id: &Option<String>) -> (out: JsonObject)
        ensures
            out@ == image_members(self@, data@, string_view(*display_id)),
    {
        let mut out = JsonObject::new();
        out.push("event", Json::string(self.tag()));
        out.push("data", Json::string(data.as_str()));
        let id = match display_id {
            Some(id) => Json::string(id.as_str()),
            None => Json::Null,
        };
        out.push("display_id", id);
        out
    }

    /// The JSON object that this event is written as.
    pub fn to_json(&self) -> (out: JsonObject)
        ensures
            out@ == event_members(self@),
    {
        match self {
            SidecarEvent::LspPort { port } => {
                let mut out = JsonObject::new();
                out.push("event", Json::string(self.tag()));
                out.push("port", Json::number(*port as u64));
                out
            },
            SidecarEvent::Error { message } => {
                let mut out = JsonObject::new();
                out.push("event", Json::string(self.tag()));
                out.push("message", Json::string(message.as_str()));
                out
            },
            SidecarEvent::KernelStatus { status } => {
                let mut out = JsonObject::new();
                out.push("event", Json::string(self.tag()));
                out.push("status", Json::string(status.as_str()));
                out
            },
            SidecarEvent::Alive => {
                let mut out = JsonObject::new();
                out.push("event", Json::string(self.tag()));
                out
            },
            SidecarEvent::CommOpen { comm_id, target_name, data } => self.opened(
                comm_id,
                target_name,
                Some(data),
            ),
            SidecarEvent::UiCommOpen { comm_id, target_name, data } => self.opened(
                comm_id,
                target_name,
                data.as_ref(),
            ),
            SidecarEvent::HelpCommOpen { comm_id, target_name, data } => self.opened(
                comm_id,
                target_name,
                data.as_ref(),
            ),
            SidecarEvent::VariablesCommOpen { comm_id, target_name, data } => self.opened(
                comm_id,
                target_name,
                data.as_ref(),
            ),
            SidecarEvent::DataExplorerCommOpen { comm_id, target_name, data } => self.opened(
                comm_id,
                target_name,
                data.as_ref(),
            ),
            SidecarEvent::CommMsg { comm_id, data } => self.with_data(comm_id, data),
            SidecarEvent::CommClose { comm_id } => {
                let mut out = JsonObject::new();
                out.push("event", Json::string(self.tag()));
                out.push("comm_id", Json::string(comm_id.as_str()));
                out
            },
            SidecarEvent::ShowHtmlFile { comm_id, data } => self.with_data(comm_id, data),
            SidecarEvent::ShowHelp { comm_id, data } => self.with_data(comm_id, data),
            SidecarEvent::DisplayData { data, display_id } => self.image(data, display_id),
            SidecarEvent::UpdateDisplayData { data, display_id } => self.image(data, display_id),
        }
    }

    /// The line that this event is written as, without the line's end.
    pub fn line(&self) -> (text: String)
        ensures
            text@ == event_line(self@),
    {
        render_json(&self.to_json().into_json())
    }
}

} // verus!
