//! The Jupyter message contents that the sidecar sends and receives.

use crate::json::{
    lemma_object_view, lookup, parse_json, parsed_json, string_member, Json, JsonObject, JsonView,
    MemberView,
};
use crate::text::{same_text, string_view, text_view};
use vstd::prelude::*;

verus! {

/// What a kernel reports of itself in a `status` message.
#[derive(Clone, Copy, Debug, PartialEq, Eq, Structural)]
pub enum ExecutionState {
    Idle,
    Busy,
    Starting,
    /// Any other state.
    Other,
}

/// One representation of a displayed output.
#[derive(Clone, Debug, PartialEq, Eq)]
pub enum MediaType {
    /// `text/plain`.
    Plain(String),
    /// `text/html`.
    Html(String),
    /// `image/png`, base64 encoded.
    Png(String),
    /// `image/jpeg`, base64 encoded.
    Jpeg(String),
    /// `image/svg+xml`.
    Svg(String),
    /// Any other MIME type, by its name.
    Other(String),
}

/// A media bundle: the representations of one output, in the order received.
#[derive(Clone, Debug, PartialEq, Eq)]
pub struct Media {
    pub content: Vec<MediaType>,
}

/// The transient block of a display message.
#[derive(Clone, Debug, PartialEq, Eq)]
pub struct Transient {
    pub display_id: Option<String>,
}

/// The content of a Jupyter message, tagged by its message type.
#[derive(Clone, Debug, PartialEq, Eq)]
#[allow(inconsistent_fields)]
pub enum Content {
    Status { execution_state: ExecutionState },
    ExecuteRequest { code: String },
    KernelInfoRequest,
    CommOpen { comm_id: String, target_name: String, data: JsonObject },
    CommMsg { comm_id: String, data: JsonObject },
    CommClose { comm_id: String, data: JsonObject },
    DisplayData { data: Media, transient: Option<Transient> },
    UpdateDisplayData { data: Media, transient: Transient },
    Stream,
    /// A message of any other type.
    Other,
}

/// A message read from the kernel: the message it answers, and its content.
#[derive(Clone, Debug, PartialEq, Eq)]
pub struct KernelMessage {
    /// The `msg_id` of the parent header, where the message has one.
    pub parent_msg_id: Option<String>,
    pub content: Content,
}

/// What a [`MediaType`] stands for.
pub enum MediaTypeView {
    Plain(Seq<char>),
    Html(Seq<char>),
    Png(Seq<char>),
    Jpeg(Seq<char>),
    Svg(Seq<char>),
    Other(Seq<char>),
}

/// What a [`Content`] stands for.
#[allow(inconsistent_fields)]
pub enum ContentView {
    Status { execution_state: ExecutionState },
    ExecuteRequest { code: Seq<char> },
    KernelInfoRequest,
    CommOpen { comm_id: Seq<char>, target_name: Seq<char>, data: Seq<MemberView> },
    CommMsg { comm_id: Seq<char>, data: Seq<MemberView> },
    CommClose { comm_id: Seq<char>, data: Seq<MemberView> },
    DisplayData { data: Seq<MediaTypeView>, display_id: Option<Seq<char>> },
    UpdateDisplayData { data: Seq<MediaTypeView>, display_id: Option<Seq<char>> },
    Stream,
    Other,
}

/// What a [`KernelMessage`] stands for.
pub struct KernelMessageView {
    pub parent_msg_id: Option<Seq<char>>,
    pub content: ContentView,
}

impl View for MediaType {
    type V = MediaTypeView;

    open spec fn view(&self) -> MediaTypeView {
        match self {
            MediaType::Plain(s) => MediaTypeView::Plain(s@),
            MediaType::Html(s) => MediaTypeView::Html(s@),
            MediaType::Png(s) => MediaTypeView::Png(s@),
            MediaType::Jpeg(s) => MediaTypeView::Jpeg(s@),
            MediaType::Svg(s) => MediaTypeView::Svg(s@),
            MediaType::Other(s) => MediaTypeView::Other(s@),
        }
    }
}

impl View for Media {
    type V = Seq<MediaTypeView>;

    open spec fn view(&self) -> Seq<MediaTypeView> {
        Seq::new(self.content.len() as nat, |i: int| self.content[i]@)
    }
}

impl View for Transient {
    type V = Option<Seq<char>>;

    open spec fn view(&self) -> Option<Seq<char>> {
        string_view(self.display_id)
    }
}

impl View for Content {
    type V = ContentView;

    open spec fn view(&self) -> ContentView {
        match self {
            Content::Status { execution_state } => ContentView::Status {
                execution_state: *execution_state,
            },
            Content::ExecuteRequest { code } => ContentView::ExecuteRequest { code: code@ },
            Content::KernelInfoRequest => ContentView::KernelInfoRequest,
            Content::CommOpen { comm_id, target_name, data } => ContentView::CommOpen {
                comm_id: comm_id@,
                target_name: target_name@,
                data: data@,
            },
            Content::CommMsg { comm_id, data } => ContentView::CommMsg {
                comm_id: comm_id@,
                data: data@,
            },
            Content::CommClose { comm_id, data } => ContentView::CommClose {
                comm_id: comm_id@,
                data: data@,
            },
            Content::DisplayData { data, transient } => ContentView::DisplayData {
                data: data@,
                display_id: match transient {
                    Some(t) => t@,
                    None => None,
                },
            },
            Content::UpdateDisplayData { data, transient } => ContentView::UpdateDisplayData {
                data: data@,
                display_id: transient@,
            },
            Content::Stream => ContentView::Stream,
            Content::Other => ContentView::Other,
        }
    }
}

impl View for KernelMessage {
    type V = KernelMessageView;

    open spec fn view(&self) -> KernelMessageView {
        KernelMessageView { parent_msg_id: string_view(self.parent_msg_id), content: self.content@ }
    }
}

/// The Jupyter message type under which a content travels; `None` for a
/// content of a type that the sidecar does not name.
pub open spec fn message_type_of(content: ContentView) -> Option<Seq<char>> {
    match content {
        ContentView::Status { .. } => Some("status"@),
        ContentView::ExecuteRequest { .. } => Some("execute_request"@),
        ContentView::KernelInfoRequest => Some("kernel_info_request"@),
        ContentView::CommOpen { .. } => Some("comm_open"@),
        ContentView::CommMsg { .. } => Some("comm_msg"@),
        ContentView::CommClose { .. } => Some("comm_close"@),
        ContentView::DisplayData { .. } => Some("display_data"@),
        ContentView::UpdateDisplayData { .. } => Some("update_display_data"@),
        ContentView::Stream => Some("stream"@),
        ContentView::Other => None,
    }
}

impl Content {
    /// The Jupyter message type under which this content travels.
    pub fn message_type(&self) -> (name: Option<&'static str>)
        ensures
            text_view(name) == message_type_of(self@),
    {
        match self {
            Content::Status { .. } => Some("status"),
            Content::ExecuteRequest { .. } => Some("execute_request"),
            Content::KernelInfoRequest => Some("kernel_info_request"),
            Content::CommOpen { .. } => Some("comm_open"),
            Content::CommMsg { .. } => Some("comm_msg"),
            Content::CommClose { .. } => Some("comm_close"),
            Content::DisplayData { .. } => Some("display_data"),
            Content::UpdateDisplayData { .. } => Some("update_display_data"),
            Content::Stream => Some("stream"),
            Content::Other => None,
        }
    }
}

/// The first PNG payload of a media bundle.
pub open spec fn first_png(media: Seq<MediaTypeView>) -> Option<Seq<char>>
    decreases media.len(),
{
    if media.len() == 0 {
        None
    } else {
        match media[0] {
            MediaTypeView::Png(data) => Some(data),
            _ => first_png(media.drop_first()),
        }
    }
}

/// The first PNG payload of a media bundle.
pub fn extract_png_data(media: &Media) -> (png: Option<String>)
    ensures
        string_view(png) == first_png(media@),
{
    let mut i: usize = 0;
    assert(media@.subrange(0, media@.len() as int) =~= media@);
    while i < media.content.len()
        invariant
            i <= media.content.len(),
            first_png(media@) == first_png(media@.subrange(i as int, media@.len() as int)),
        decreases media.content.len() - i,
    {
        let ghost rest = media@.subrange(i as int, media@.len() as int);
        assert(rest[0] == media@[i as int]);
        assert(rest.drop_first() =~= media@.subrange(i + 1, media@.len() as int));
        if let MediaType::Png(data) = &media.content[i] {
            return Some(data.clone());
        }
        i = i + 1;
    }
    None
}

/// What a content that its decoder refused is taken for all the same: a
/// `comm_close` whose content is an object with a string `comm_id` and no
/// `data` is a `comm_close` with empty data. Nothing else is recovered.
pub open spec fn recovered_content(msg_type: Seq<char>, content: Option<JsonView>) -> Option<
    ContentView,
> {
    if msg_type != "comm_close"@ {
        None
    } else {
        match content {
            Some(JsonView::Object(members)) => match string_member(members, "comm_id"@) {
                Some(comm_id) => if lookup(members, "data"@) is None {
                    Some(ContentView::CommClose { comm_id, data: Seq::empty() })
                } else {
                    None
                },
                None => None,
            },
            _ => None,
        }
    }
}

/// What an optional content stands for.
pub open spec fn content_view(content: Option<Content>) -> Option<ContentView> {
    match content {
        Some(c) => Some(c@),
        None => None,
    }
}

/// Recovers a content that its decoder refused, from what the JSON parser
/// made of the content frame.
pub fn recover_from_json(msg_type: &str, content: Option<&Json>) -> (recovered: Option<Content>)
    ensures
        content_view(recovered) == recovered_content(
            msg_type@,
            match content {
                Some(value) => Some(value@),
                None => None,
            },
        ),
{
    if !same_text(msg_type, "comm_close") {
        return None;
    }
    match content {
        Some(Json::Object(object)) => {
            proof {
                lemma_object_view(*object);
            }
            match object.get_str("comm_id") {
                Some(comm_id) => if object.get("data").is_none() {
                    Some(Content::CommClose { comm_id: comm_id.clone(), data: JsonObject::new() })
                } else {
                    None
                },
                None => None,
            }
        },
        _ => None,
    }
}

/// Recovers a content that its decoder refused, from the text of the
/// content frame.
pub fn recover_content(msg_type: &str, content: &str) -> (recovered: Option<Content>)
    ensures
        content_view(recovered) == recovered_content(msg_type@, parsed_json(content@)),
{
    let parsed = parse_json(content);
    recover_from_json(msg_type, parsed.as_ref())
}

} // verus!
