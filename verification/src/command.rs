//! The commands that the editor writes, one JSON object per line.
//!
//! A line that is no JSON, names no command, names an unknown one or lacks a
//! field that its command requires is skipped; it never ends the loop.

use crate::json::{
    lemma_object_view, object_member, parse_json, parsed_json, string_member, Json, JsonObject,
    JsonView, MemberView,
};
use crate::logging::{is_log_level, valid_log_level};
use crate::message::{Content, ContentView};
use crate::pending::{extract_request_id, request_id_of};
use crate::text::{same_text, string_view};
use vstd::prelude::*;

verus! {

/// Name of the command that reloads the log filter.
pub const LOG_RELOAD_COMMAND: &'static str = "reload_log_level";

/// Why a line was skipped.
#[derive(Clone, Copy, Debug, PartialEq, Eq, Structural)]
pub enum SkipReason {
    /// The line is not one JSON value.
    InvalidJson,
    /// The value is no object, or has no string member `command`.
    MissingCommand,
    /// The command is none of those that the sidecar knows.
    UnknownCommand,
    /// A member that the command requires is absent or of the wrong type.
    MissingFields,
}

/// What one line of standard input asks for.
#[derive(Clone, Debug, PartialEq, Eq)]
pub enum StdinCommand {
    /// Rebuild the log filter: for the given level, or from the environment
    /// where there is none.
    ReloadLogLevel { level: Option<String> },
    /// Send `content` on the shell socket and, once it is sent, remember
    /// `request_id` for the message, where there is one.
    Forward { content: Content, request_id: Option<String> },
    /// Do nothing.
    Skip { reason: SkipReason },
}

/// What a [`StdinCommand`] stands for.
pub enum CommandView {
    ReloadLogLevel { level: Option<Seq<char>> },
    Forward { content: ContentView, request_id: Option<Seq<char>> },
    Skip { reason: SkipReason },
}

impl View for StdinCommand {
    type V = CommandView;

    open spec fn view(&self) -> CommandView {
        match self {
            StdinCommand::ReloadLogLevel { level } => CommandView::ReloadLogLevel {
                level: string_view(*level),
            },
            StdinCommand::Forward { content, request_id } => CommandView::Forward {
                content: content@,
                request_id: string_view(*request_id),
            },
            StdinCommand::Skip { reason } => CommandView::Skip { reason: *reason },
        }
    }
}

/// The level that a reload command sets: its `log_level`, where that is a
/// string that names a log level. Any other value, `inherit` among them,
/// stands for the environment's filter.
pub open spec fn reload_level(members: Seq<MemberView>) -> Option<Seq<char>> {
    match string_member(members, "log_level"@) {
        Some(level) => if is_log_level(level) {
            Some(level)
        } else {
            None
        },
        None => None,
    }
}

/// What the command `command` with the members `members` asks for.
pub open spec fn command_named(command: Seq<char>, members: Seq<MemberView>) -> CommandView {
    if command == LOG_RELOAD_COMMAND@ {
        CommandView::ReloadLogLevel { level: reload_level(members) }
    } else if command == "comm_msg"@ {
        match (string_member(members, "comm_id"@), object_member(members, "data"@)) {
            (Some(comm_id), Some(data)) => CommandView::Forward {
                content: ContentView::CommMsg { comm_id, data },
                request_id: request_id_of(data),
            },
            _ => CommandView::Skip { reason: SkipReason::MissingFields },
        }
    } else if command == "comm_open"@ {
        match (
            string_member(members, "comm_id"@),
            string_member(members, "target_name"@),
            object_member(members, "data"@),
        ) {
            (Some(comm_id), Some(target_name), Some(data)) => CommandView::Forward {
                content: ContentView::CommOpen { comm_id, target_name, data },
                request_id: None,
            },
            _ => CommandView::Skip { reason: SkipReason::MissingFields },
        }
    } else if command == "comm_close"@ {
        match string_member(members, "comm_id"@) {
            Some(comm_id) => CommandView::Forward {
                content: ContentView::CommClose {
                    comm_id,
                    data: match object_member(members, "data"@) {
                        Some(data) => data,
                        None => Seq::empty(),
                    },
                },
                request_id: None,
            },
            None => CommandView::Skip { reason: SkipReason::MissingFields },
        }
    } else {
        CommandView::Skip { reason: SkipReason::UnknownCommand }
    }
}

/// What a line asks for, given what the JSON parser made of it.
pub open spec fn command_of(parsed: Option<JsonView>) -> CommandView {
    match parsed {
        None => CommandView::Skip { reason: SkipReason::InvalidJson },
        Some(JsonView::Object(members)) => match string_member(members, "command"@) {
            Some(command) => command_named(command, members),
            None => CommandView::Skip { reason: SkipReason::MissingCommand },
        },
        Some(_) => CommandView::Skip { reason: SkipReason::MissingCommand },
    }
}

fn reload_command(object: &JsonObject) -> (out: StdinCommand)
    ensures
        out@ == (CommandView::ReloadLogLevel { level: reload_level(object@) }),
{
    match object.get_str("log_level") {
        Some(level) => if valid_log_level(level.as_str()) {
            StdinCommand::ReloadLogLevel { level: Some(level.clone()) }
        } else {
            StdinCommand::ReloadLogLevel { level: None }
        },
        None => StdinCommand::ReloadLogLevel { level: None },
    }
}

fn named_command(command: &str, object: &JsonObject) -> (out: StdinCommand)
    ensures
        out@ == command_named(command@, object@),
{
    let missing = StdinCommand::Skip { reason: SkipReason::MissingFields };
    if same_text(command, LOG_RELOAD_COMMAND) {
        reload_command(object)
    } else if same_text(command, "comm_msg") {
        match (object.get_str("comm_id"), object.get_object("data")) {
            (Some(comm_id), Some(data)) => {
                let request_id = extract_request_id(data);
                StdinCommand::Forward {
                    content: Content::CommMsg { comm_id: comm_id.clone(), data: data.clone() },
                    request_id,
                }
            },
            _ => missing,
        }
    } else if same_text(command, "comm_open") {
        match (
            object.get_str("comm_id"),
            object.get_str("target_name"),
            object.get_object("data"),
        ) {
            (Some(comm_id), Some(target_name), Some(data)) => StdinCommand::Forward {
                content: Content::CommOpen {
                    comm_id: comm_id.clone(),
                    target_name: target_name.clone(),
                    data: data.clone(),
                },
                request_id: None,
            },
            _ => missing,
        }
    } else if same_text(command, "comm_close") {
        match object.get_str("comm_id") {
            Some(comm_id) => {
                let data = match object.get_object("data") {
                    Some(data) => data.clone(),
                    None => JsonObject::new(),
                };
                StdinCommand::Forward {
                    content: Content::CommClose { comm_id: comm_id.clone(), data },
                    request_id: None,
                }
            },
            None => missing,
        }
    } else {
        StdinCommand::Skip { reason: SkipReason::UnknownCommand }
    }
}

/// Decides what a line asks for, from what the JSON parser made of it.
pub fn command_from_json(parsed: Option<&Json>) -> (out: StdinCommand)
    ensures
        out@ == command_of(
            match parsed {
                Some(value) => Some(value@),
                None => None,
            },
        ),
{
    match parsed {
        None => StdinCommand::Skip { reason: SkipReason::InvalidJson },
        Some(Json::Object(object)) => {
            proof {
                lemma_object_view(*object);
            }
            match object.get_str("command") {
                Some(command) => named_command(command.as_str(), object),
                None => StdinCommand::Skip { reason: SkipReason::MissingCommand },
            }
        },
        Some(_) => StdinCommand::Skip { reason: SkipReason::MissingCommand },
    }
}

/// Reads one line of standard input and decides what it asks for.
pub fn parse_command(line: &str) -> (out: StdinCommand)
    ensures
        out@ == command_of(parsed_json(line@)),
{
    let parsed = parse_json(line);
    command_from_json(parsed.as_ref())
}

} // verus!
