use ark_sidecar::command::{command_from_json, parse_command, SkipReason, StdinCommand};
use ark_sidecar::error::ErrorKind;
use ark_sidecar::event::{SidecarEvent, StatusName};
use ark_sidecar::json::{parse_json, Json, JsonObject};
use ark_sidecar::logging::{build_level_filter, valid_log_level};
use ark_sidecar::message::{extract_png_data, Content, ExecutionState, KernelMessage, Media, MediaType, Transient};
use ark_sidecar::pending::{attach_comm_reply_id, extract_request_id, PendingComms};
use ark_sidecar::wait::{ReadFailure, ReadFailureKind, ReadOutcome};
use ark_sidecar::watch::{
    build_plot_payload, iopub_event, is_comm_close_missing_data, record_forwarded, shell_event, startup_openings, watch_iopub,
    watch_shell, WatchStep,
};

fn obj(text: &str) -> JsonObject {
    match parse_json(text).expect("valid JSON") {
        Json::Object(object) => object,
        _ => panic!("not an object"),
    }
}

fn from_kernel(parent: Option<&str>, content: Content) -> KernelMessage {
    KernelMessage { parent_msg_id: parent.map(|p| p.to_string()), content }
}

fn comm_msg(comm_id: &str, data: &str) -> Content {
    Content::CommMsg { comm_id: comm_id.to_string(), data: obj(data) }
}

fn failure(kind: ReadFailureKind, detail: &str) -> ReadOutcome {
    ReadOutcome::Failed(ReadFailure { kind, message: "read failed".to_string(), detail: detail.to_string() })
}

fn line_of(step: WatchStep) -> Option<String> {
    match step {
        WatchStep::Continue { event } => event.map(|e| e.line()),
        WatchStep::Fail { error } => panic!("unexpected failure: {}", error.message),
    }
}

#[test]
fn extract_png_data_returns_png() {
    let media = Media { content: vec![MediaType::Png("png-data".to_string())] };
    assert_eq!(extract_png_data(&media), Some("png-data".to_string()));
}

#[test]
fn extract_png_data_skips_non_png() {
    let media = Media { content: vec![MediaType::Html("<p>hi</p>".to_string())] };
    assert_eq!(extract_png_data(&media), None);
}

#[test]
fn extract_png_data_takes_first_png() {
    let media = Media {
        content: vec![
            MediaType::Plain("plot".to_string()),
            MediaType::Png("first".to_string()),
            MediaType::Jpeg("jpeg".to_string()),
            MediaType::Png("second".to_string()),
        ],
    };
    assert_eq!(extract_png_data(&media), Some("first".to_string()));
    assert_eq!(extract_png_data(&Media { content: Vec::new() }), None);
}

#[test]
fn build_plot_payload_follows_the_message_kind() {
    let media = Media { content: vec![MediaType::Png("AAAA".to_string())] };
    let transient = Transient { display_id: Some("d1".to_string()) };
    assert_eq!(
        build_plot_payload(false, &media, Some(&transient)),
        Some(SidecarEvent::DisplayData { data: "AAAA".to_string(), display_id: Some("d1".to_string()) })
    );
    assert_eq!(
        build_plot_payload(true, &media, None),
        Some(SidecarEvent::UpdateDisplayData { data: "AAAA".to_string(), display_id: None })
    );
    let svg = Media { content: vec![MediaType::Svg("<svg/>".to_string())] };
    assert_eq!(build_plot_payload(false, &svg, Some(&transient)), None);
}

#[test]
fn plot_image_line() {
    let mut pending = PendingComms::new();
    let message = from_kernel(
        None,
        Content::DisplayData {
            data: Media { content: vec![MediaType::Plain("plot".to_string()), MediaType::Png("AAAA".to_string())] },
            transient: Some(Transient { display_id: Some("d1".to_string()) }),
        },
    );
    let step = watch_iopub(&ReadOutcome::Message(message), &mut pending);
    assert_eq!(line_of(step), Some(r#"{"event":"display_data","data":"AAAA","display_id":"d1"}"#.to_string()));
}

#[test]
fn update_display_data_without_id_writes_null() {
    let mut pending = PendingComms::new();
    let message = from_kernel(
        None,
        Content::UpdateDisplayData {
            data: Media { content: vec![MediaType::Png("QQ==".to_string())] },
            transient: Transient { display_id: None },
        },
    );
    let event = iopub_event(&message, &mut pending).expect("event");
    assert_eq!(event.line(), r#"{"event":"update_display_data","data":"QQ==","display_id":null}"#);
}

#[test]
fn watch_comm_reply_correlation() {
    let mut pending = PendingComms::new();
    let command = parse_command(r#"{"command":"comm_msg","comm_id":"C1","data":{"id":"r7","method":"list"}}"#);
    let (content, request_id) = match command {
        StdinCommand::Forward { content, request_id } => (content, request_id),
        other => panic!("unexpected command {:?}", other),
    };
    assert_eq!(content, comm_msg("C1", r#"{"id":"r7","method":"list"}"#));
    assert_eq!(request_id, Some("r7".to_string()));
    let sent = record_forwarded(&mut pending, "out-1", request_id, true);
    assert_eq!(sent, WatchStep::Continue { event: None });
    assert_eq!(pending.get("out-1"), Some("r7".to_string()));

    let reply = from_kernel(Some("out-1"), comm_msg("C1", r#"{"result":[]}"#));
    let step = watch_iopub(&ReadOutcome::Message(reply), &mut pending);
    assert_eq!(line_of(step), Some(r#"{"event":"comm_msg","comm_id":"C1","data":{"result":[],"id":"r7"}}"#.to_string()));
    assert!(pending.is_empty());
}

#[test]
fn reply_with_own_id_overrides_pending_entry() {
    let mut pending = PendingComms::new();
    record_forwarded(&mut pending, "out-1", Some("r7".to_string()), true);
    let reply = from_kernel(Some("out-1"), comm_msg("C1", r#"{"id":"kernel","result":1}"#));
    let event = shell_event(&reply, &mut pending);
    assert_eq!(event, Some(SidecarEvent::CommMsg { comm_id: "C1".to_string(), data: obj(r#"{"id":"kernel","result":1}"#) }));
    assert!(pending.is_empty());
}

#[test]
fn numeric_request_id_is_stamped_as_text() {
    let mut pending = PendingComms::new();
    let command = parse_command(r#"{"command":"comm_msg","comm_id":"C1","data":{"id":42}}"#);
    let request_id = match command {
        StdinCommand::Forward { request_id, .. } => request_id,
        other => panic!("unexpected command {:?}", other),
    };
    assert_eq!(request_id, Some("42".to_string()));
    record_forwarded(&mut pending, "m", request_id, true);
    let reply = from_kernel(Some("m"), comm_msg("C1", "{}"));
    let event = shell_event(&reply, &mut pending).expect("event");
    assert_eq!(event.line(), r#"{"event":"comm_msg","comm_id":"C1","data":{"id":"42"}}"#);
}

#[test]
fn reply_to_unknown_parent_passes_unchanged() {
    let mut pending = PendingComms::new();
    record_forwarded(&mut pending, "out-1", Some("r7".to_string()), true);
    let stranger = from_kernel(Some("out-2"), comm_msg("C1", r#"{"result":[]}"#));
    assert_eq!(iopub_event(&stranger, &mut pending), Some(SidecarEvent::CommMsg { comm_id: "C1".to_string(), data: obj(r#"{"result":[]}"#) }));
    let orphan = from_kernel(None, comm_msg("C1", r#"{"result":[]}"#));
    assert_eq!(iopub_event(&orphan, &mut pending), Some(SidecarEvent::CommMsg { comm_id: "C1".to_string(), data: obj(r#"{"result":[]}"#) }));
    assert_eq!(pending.get("out-1"), Some("r7".to_string()));
}

#[test]
fn entry_is_used_only_once() {
    let mut pending = PendingComms::new();
    record_forwarded(&mut pending, "out-1", Some("r7".to_string()), true);
    let reply = from_kernel(Some("out-1"), comm_msg("C1", "{}"));
    assert_eq!(shell_event(&reply, &mut pending), Some(SidecarEvent::CommMsg { comm_id: "C1".to_string(), data: obj(r#"{"id":"r7"}"#) }));
    assert_eq!(shell_event(&reply, &mut pending), Some(SidecarEvent::CommMsg { comm_id: "C1".to_string(), data: obj("{}") }));
}

#[test]
fn failed_send_is_fatal_and_remembers_nothing() {
    let mut pending = PendingComms::new();
    let step = record_forwarded(&mut pending, "out-1", Some("r7".to_string()), false);
    match step {
        WatchStep::Fail { error } => assert_eq!(error.kind, ErrorKind::Socket),
        other => panic!("unexpected step {:?}", other),
    }
    assert!(pending.is_empty());
    record_forwarded(&mut pending, "out-2", None, true);
    assert!(pending.is_empty());
}

#[test]
fn pending_table_inserts_replaces_and_removes() {
    let mut pending = PendingComms::new();
    assert!(pending.is_empty());
    pending.insert("a".to_string(), "1".to_string());
    pending.insert("b".to_string(), "2".to_string());
    pending.insert("a".to_string(), "3".to_string());
    assert_eq!(pending.get("a"), Some("3".to_string()));
    assert_eq!(pending.remove("a"), Some("3".to_string()));
    assert_eq!(pending.remove("a"), None);
    assert_eq!(pending.get("b"), Some("2".to_string()));
    assert!(!pending.is_empty());
    assert_eq!(pending.remove("b"), Some("2".to_string()));
    assert!(pending.is_empty());
}

#[test]
fn extract_request_id_reads_strings_and_numbers() {
    assert_eq!(extract_request_id(&obj(r#"{"id":"r7"}"#)), Some("r7".to_string()));
    assert_eq!(extract_request_id(&obj(r#"{"id":7}"#)), Some("7".to_string()));
    assert_eq!(extract_request_id(&obj(r#"{"id":-2}"#)), Some("-2".to_string()));
    assert_eq!(extract_request_id(&obj(r#"{"id":1.5}"#)), Some("1.5".to_string()));
    assert_eq!(extract_request_id(&obj(r#"{"id":null}"#)), None);
    assert_eq!(extract_request_id(&obj(r#"{"id":["r7"]}"#)), None);
    assert_eq!(extract_request_id(&obj(r#"{"ID":"r7"}"#)), None);
}

#[test]
fn attach_comm_reply_id_leaves_null_id_alone() {
    let mut pending = PendingComms::new();
    pending.insert("m".to_string(), "r".to_string());
    let out = attach_comm_reply_id(obj(r#"{"id":null}"#), Some("m"), &mut pending);
    assert_eq!(out, obj(r#"{"id":null}"#));
    assert!(pending.is_empty());
}

#[test]
fn iopub_events_follow_the_content_type() {
    let mut pending = PendingComms::new();
    let cases: Vec<(Content, Option<&str>)> = vec![
        (Content::Status { execution_state: ExecutionState::Idle }, Some("kernel_status")),
        (Content::CommClose { comm_id: "c".to_string(), data: JsonObject::new() }, Some("comm_close")),
        (comm_msg("c", "{}"), Some("comm_msg")),
        (comm_msg("c", r#"{"method":"show_html_file"}"#), Some("show_html_file")),
        (comm_msg("c", r#"{"method":"show_help"}"#), Some("show_help")),
        (comm_msg("c", r#"{"method":"other"}"#), Some("comm_msg")),
        (comm_msg("c", r#"{"method":["show_help"]}"#), Some("comm_msg")),
        (Content::CommOpen { comm_id: "c".to_string(), target_name: "positron.plot".to_string(), data: JsonObject::new() }, Some("comm_open")),
        (Content::CommOpen { comm_id: "c".to_string(), target_name: "positron.ui".to_string(), data: JsonObject::new() }, Some("ui_comm_open")),
        (Content::CommOpen { comm_id: "c".to_string(), target_name: "positron.help".to_string(), data: JsonObject::new() }, Some("help_comm_open")),
        (Content::CommOpen { comm_id: "c".to_string(), target_name: "positron.variables".to_string(), data: JsonObject::new() }, Some("variables_comm_open")),
        (Content::CommOpen { comm_id: "c".to_string(), target_name: "positron.dataExplorer".to_string(), data: JsonObject::new() }, Some("data_explorer_comm_open")),
        (Content::CommOpen { comm_id: "c".to_string(), target_name: "positron.lsp".to_string(), data: JsonObject::new() }, None),
        (Content::CommOpen { comm_id: "c".to_string(), target_name: "jupyter.widget".to_string(), data: JsonObject::new() }, None),
        (Content::DisplayData { data: Media { content: vec![MediaType::Png("x".to_string())] }, transient: None }, Some("display_data")),
        (Content::DisplayData { data: Media { content: vec![MediaType::Html("x".to_string())] }, transient: None }, None),
        (
            Content::UpdateDisplayData { data: Media { content: vec![MediaType::Png("x".to_string())] }, transient: Transient { display_id: None } },
            Some("update_display_data"),
        ),
        (Content::Stream, None),
        (Content::Other, None),
        (Content::ExecuteRequest { code: "1".to_string() }, None),
        (Content::KernelInfoRequest, None),
    ];
    for (content, tag) in cases {
        let event = iopub_event(&from_kernel(None, content.clone()), &mut pending);
        assert_eq!(event.as_ref().map(|e| e.tag()), tag, "{:?}", content);
    }
}

#[test]
fn status_events_name_the_state() {
    let mut pending = PendingComms::new();
    let cases = [
        (ExecutionState::Idle, StatusName::Idle, "idle"),
        (ExecutionState::Busy, StatusName::Busy, "busy"),
        (ExecutionState::Starting, StatusName::Starting, "starting"),
        (ExecutionState::Other, StatusName::Unknown, "unknown"),
    ];
    for (state, status, word) in cases {
        let event = iopub_event(&from_kernel(None, Content::Status { execution_state: state }), &mut pending).expect("event");
        assert_eq!(event, SidecarEvent::KernelStatus { status });
        assert_eq!(event.line(), format!("{{\"event\":\"kernel_status\",\"status\":\"{}\"}}", word));
    }
}

#[test]
fn opened_comm_event_carries_its_data() {
    let mut pending = PendingComms::new();
    let message = from_kernel(
        None,
        Content::CommOpen { comm_id: "p1".to_string(), target_name: "positron.plot".to_string(), data: obj(r#"{"w":1}"#) },
    );
    let event = iopub_event(&message, &mut pending).expect("event");
    assert_eq!(event.line(), r#"{"event":"comm_open","comm_id":"p1","target_name":"positron.plot","data":{"w":1}}"#);
    let close = from_kernel(None, Content::CommClose { comm_id: "p1".to_string(), data: obj(r#"{"w":1}"#) });
    assert_eq!(iopub_event(&close, &mut pending).expect("event").line(), r#"{"event":"comm_close","comm_id":"p1"}"#);
}

#[test]
fn shell_attends_only_to_comm_messages() {
    let mut pending = PendingComms::new();
    pending.insert("m".to_string(), "r".to_string());
    for content in [
        Content::Status { execution_state: ExecutionState::Idle },
        Content::Other,
        Content::CommClose { comm_id: "c".to_string(), data: JsonObject::new() },
        Content::CommOpen { comm_id: "c".to_string(), target_name: "positron.ui".to_string(), data: JsonObject::new() },
    ] {
        assert_eq!(shell_event(&from_kernel(Some("m"), content), &mut pending), None);
    }
    assert_eq!(pending.get("m"), Some("r".to_string()));
    let shown = from_kernel(Some("m"), comm_msg("c", r#"{"method":"show_help"}"#));
    let event = shell_event(&shown, &mut pending).expect("event");
    assert_eq!(event.tag(), "comm_msg");
    assert!(pending.is_empty());
}

#[test]
fn startup_opens_four_comms_in_order() {
    let openings = startup_openings("h", "u", "v", "d");
    let lines: Vec<String> = openings.iter().map(|o| o.event.line()).collect();
    assert_eq!(
        lines,
        vec![
            r#"{"event":"help_comm_open","comm_id":"h","target_name":"positron.help"}"#.to_string(),
            r#"{"event":"ui_comm_open","comm_id":"u","target_name":"positron.ui"}"#.to_string(),
            r#"{"event":"variables_comm_open","comm_id":"v","target_name":"positron.variables"}"#.to_string(),
            r#"{"event":"data_explorer_comm_open","comm_id":"d","target_name":"positron.dataExplorer"}"#.to_string(),
        ]
    );
    assert_eq!(
        openings[3].request,
        Content::CommOpen { comm_id: "d".to_string(), target_name: "positron.dataExplorer".to_string(), data: JsonObject::new() }
    );
    assert_eq!(openings[0].request.message_type(), Some("comm_open"));
}

#[test]
fn is_comm_close_missing_data_needs_both_phrases() {
    let detail = "ParseError { msg_type: \"comm_close\", source: Error(\"missing field `data`\", line: 0, column: 0) }";
    assert!(is_comm_close_missing_data(detail));
    assert!(!is_comm_close_missing_data("ParseError { msg_type: \"comm_msg\", source: Error(\"missing field `data`\") }"));
    assert!(!is_comm_close_missing_data("ParseError { msg_type: \"comm_close\", source: Error(\"missing field `comm_id`\") }"));
    assert!(!is_comm_close_missing_data(""));
}

#[test]
fn watch_tolerates_only_comm_close_without_data() {
    let mut pending = PendingComms::new();
    let tolerated = failure(ReadFailureKind::Decode, "comm_close: missing field `data`");
    assert_eq!(watch_iopub(&tolerated, &mut pending), WatchStep::Continue { event: None });
    assert_eq!(watch_shell(&tolerated, &mut pending), WatchStep::Continue { event: None });
    for (kind, expected) in [
        (ReadFailureKind::Decode, ErrorKind::Decode),
        (ReadFailureKind::Socket, ErrorKind::Socket),
        (ReadFailureKind::SignatureMismatch, ErrorKind::SignatureMismatch),
    ] {
        match watch_iopub(&failure(kind, "something else"), &mut pending) {
            WatchStep::Fail { error } => {
                assert_eq!(error.kind, expected);
                assert_eq!(error.message, "Failed to read iopub message");
                assert_eq!(error.event().line(), r#"{"event":"error","message":"Failed to read iopub message"}"#);
            }
            other => panic!("unexpected step {:?}", other),
        }
        match watch_shell(&failure(kind, "something else"), &mut pending) {
            WatchStep::Fail { error } => assert_eq!(error.kind, expected),
            other => panic!("unexpected step {:?}", other),
        }
    }
    assert_eq!(watch_iopub(&ReadOutcome::TimedOut, &mut pending), WatchStep::Continue { event: None });
}

#[test]
fn commands_are_read_from_lines() {
    assert_eq!(
        parse_command(r#"{"command":"comm_open","comm_id":"C2","target_name":"positron.plot","data":{"a":1}}"#),
        StdinCommand::Forward {
            content: Content::CommOpen { comm_id: "C2".to_string(), target_name: "positron.plot".to_string(), data: obj(r#"{"a":1}"#) },
            request_id: None,
        }
    );
    assert_eq!(
        parse_command(r#"{"command":"comm_close","comm_id":"C2"}"#),
        StdinCommand::Forward { content: Content::CommClose { comm_id: "C2".to_string(), data: JsonObject::new() }, request_id: None }
    );
    assert_eq!(
        parse_command(r#"{"command":"comm_close","comm_id":"C2","data":{"why":"done"}}"#),
        StdinCommand::Forward { content: Content::CommClose { comm_id: "C2".to_string(), data: obj(r#"{"why":"done"}"#) }, request_id: None }
    );
    assert_eq!(
        parse_command(r#"{"command":"comm_close","comm_id":"C2","data":[1]}"#),
        StdinCommand::Forward { content: Content::CommClose { comm_id: "C2".to_string(), data: JsonObject::new() }, request_id: None }
    );
    assert_eq!(
        parse_command(r#"{"command":"comm_msg","comm_id":"C1","data":{"method":"list"}}"#),
        StdinCommand::Forward { content: comm_msg("C1", r#"{"method":"list"}"#), request_id: None }
    );
}

#[test]
fn bad_lines_are_skipped_with_a_reason() {
    let skip = |reason| StdinCommand::Skip { reason };
    assert_eq!(parse_command("not json"), skip(SkipReason::InvalidJson));
    assert_eq!(parse_command(""), skip(SkipReason::InvalidJson));
    assert_eq!(parse_command("[1,2]"), skip(SkipReason::MissingCommand));
    assert_eq!(parse_command(r#"{"comm_id":"C1"}"#), skip(SkipReason::MissingCommand));
    assert_eq!(parse_command(r#"{"command":7}"#), skip(SkipReason::MissingCommand));
    assert_eq!(parse_command(r#"{"command":"restart"}"#), skip(SkipReason::UnknownCommand));
    assert_eq!(parse_command(r#"{"command":"comm_msg","comm_id":"C1"}"#), skip(SkipReason::MissingFields));
    assert_eq!(parse_command(r#"{"command":"comm_msg","comm_id":"C1","data":"text"}"#), skip(SkipReason::MissingFields));
    assert_eq!(parse_command(r#"{"command":"comm_msg","comm_id":1,"data":{}}"#), skip(SkipReason::MissingFields));
    assert_eq!(parse_command(r#"{"command":"comm_open","comm_id":"C1","data":{}}"#), skip(SkipReason::MissingFields));
    assert_eq!(parse_command(r#"{"command":"comm_close"}"#), skip(SkipReason::MissingFields));
    assert_eq!(command_from_json(None), skip(SkipReason::InvalidJson));
    assert_eq!(command_from_json(Some(&Json::Null)), skip(SkipReason::MissingCommand));
}

#[test]
fn reload_command_names_a_level_or_the_environment() {
    let reload = |level: Option<&str>| StdinCommand::ReloadLogLevel { level: level.map(|l| l.to_string()) };
    assert_eq!(parse_command(r#"{"command":"reload_log_level","log_level":"debug"}"#), reload(Some("debug")));
    assert_eq!(parse_command(r#"{"command":"reload_log_level","log_level":"inherit"}"#), reload(None));
    assert_eq!(parse_command(r#"{"command":"reload_log_level"}"#), reload(None));
    assert_eq!(parse_command(r#"{"command":"reload_log_level","log_level":"loud"}"#), reload(None));
    assert_eq!(parse_command(r#"{"command":"reload_log_level","log_level":3}"#), reload(None));
}

#[test]
fn log_levels_and_their_directives() {
    for level in ["error", "warn", "info", "debug", "trace"] {
        assert!(valid_log_level(level));
        assert_eq!(build_level_filter(level), Some(format!("vscode_r_ark_sidecar={}", level)));
    }
    for level in ["", "inherit", "INFO", "off", "info "] {
        assert!(!valid_log_level(level));
        assert_eq!(build_level_filter(level), None);
    }
}
