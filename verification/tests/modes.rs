use ark_sidecar::check::{check_step, kernel_info_request};
use ark_sidecar::connection::{check_connection, read_connection, shell_identity, uses_iopub, ConfigError, ConnectionInfo};
use ark_sidecar::error::{exit_code, ErrorKind, SidecarError};
use ark_sidecar::event::SidecarEvent;
use ark_sidecar::execute::{answers, execute_request, idle_step};
use ark_sidecar::json::{parse_json, Json, JsonObject};
use ark_sidecar::lsp::{lsp_step, send_comm_open};
use ark_sidecar::message::{Content, ExecutionState, KernelMessage};
use ark_sidecar::types::Mode;
use ark_sidecar::wait::{read_error, remaining_wait, ModeStep, ReadFailure, ReadFailureKind, ReadOutcome};

fn obj(text: &str) -> JsonObject {
    match parse_json(text).expect("valid JSON") {
        Json::Object(object) => object,
        _ => panic!("not an object"),
    }
}

fn message(parent: Option<&str>, content: Content) -> ReadOutcome {
    ReadOutcome::Message(KernelMessage { parent_msg_id: parent.map(|p| p.to_string()), content })
}

fn comm_msg(comm_id: &str, data: &str) -> Content {
    Content::CommMsg { comm_id: comm_id.to_string(), data: obj(data) }
}

fn status(state: ExecutionState) -> Content {
    Content::Status { execution_state: state }
}

fn failed(kind: ReadFailureKind) -> ReadOutcome {
    ReadOutcome::Failed(ReadFailure { kind, message: "broken pipe".to_string(), detail: "Io(BrokenPipe)".to_string() })
}

fn run_lsp(comm_id: &str, outcomes: &[ReadOutcome]) -> (Vec<String>, Option<bool>) {
    let mut lines = Vec::new();
    for outcome in outcomes {
        match lsp_step(comm_id, outcome) {
            ModeStep::Wait => {}
            ModeStep::Finish { event } => {
                lines.extend(event.map(|e| e.line()));
                return (lines, Some(true));
            }
            ModeStep::Fail { error } => {
                lines.push(error.event().line());
                return (lines, Some(false));
            }
        }
    }
    (lines, None)
}

fn connection_text(scheme: &str) -> String {
    format!(
        "{{\"transport\":\"tcp\",\"ip\":\"127.0.0.1\",\"shell_port\":6001,\"iopub_port\":6002,\"stdin_port\":6003,\"control_port\":6004,\"hb_port\":6005,\"key\":\"secret\",\"signature_scheme\":\"{}\",\"kernel_name\":\"ark\"}}",
        scheme
    )
}

#[test]
fn lsp_happy_path() {
    let outcome = message(None, comm_msg("lsp-1", r#"{"params":{"port":8787}}"#));
    let step = lsp_step("lsp-1", &outcome);
    assert_eq!(step, ModeStep::Finish { event: Some(SidecarEvent::LspPort { port: 8787 }) });
    let (lines, success) = run_lsp("lsp-1", &[outcome]);
    assert_eq!(lines, vec![r#"{"event":"lsp_port","port":8787}"#.to_string()]);
    assert_eq!(success, Some(true));
    assert_eq!(exit_code(&Ok(())), 0);
}

#[test]
fn lsp_open_request_names_the_address() {
    let request = send_comm_open("lsp-1", "127.0.0.1");
    assert_eq!(
        request,
        Content::CommOpen { comm_id: "lsp-1".to_string(), target_name: "positron.lsp".to_string(), data: obj(r#"{"ip_address":"127.0.0.1"}"#) }
    );
}

#[test]
fn lsp_passes_over_other_traffic() {
    for outcome in [
        message(None, comm_msg("other", r#"{"params":{"port":8787}}"#)),
        message(None, comm_msg("lsp-1", r#"{"params":{"host":"x"}}"#)),
        message(None, Content::CommClose { comm_id: "other".to_string(), data: JsonObject::new() }),
        message(None, status(ExecutionState::Idle)),
        message(None, Content::Stream),
        message(None, Content::Other),
        message(None, Content::CommOpen { comm_id: "lsp-1".to_string(), target_name: "positron.lsp".to_string(), data: obj(r#"{"port":1}"#) }),
    ] {
        assert_eq!(lsp_step("lsp-1", &outcome), ModeStep::Wait, "{:?}", outcome);
    }
}

#[test]
fn lsp_fails_when_comm_closes() {
    let outcome = message(None, Content::CommClose { comm_id: "lsp-1".to_string(), data: JsonObject::new() });
    assert_eq!(
        lsp_step("lsp-1", &outcome),
        ModeStep::Fail { error: SidecarError { kind: ErrorKind::CommClosed, message: "Comm closed before LSP port was received".to_string() } }
    );
}

#[test]
fn lsp_fails_on_timeout_and_failed_read() {
    assert_eq!(
        lsp_step("lsp-1", &ReadOutcome::TimedOut),
        ModeStep::Fail { error: SidecarError { kind: ErrorKind::Timeout, message: "Timed out waiting for Ark LSP comm response".to_string() } }
    );
    assert_eq!(
        lsp_step("lsp-1", &failed(ReadFailureKind::SignatureMismatch)),
        ModeStep::Fail { error: SidecarError { kind: ErrorKind::SignatureMismatch, message: "broken pipe".to_string() } }
    );
}

#[test]
fn lsp_writes_one_port_event_on_success_and_none_otherwise() {
    let port = |lines: &Vec<String>| lines.iter().filter(|l| l.contains("\"lsp_port\"")).count();
    let noise = message(None, status(ExecutionState::Busy));
    let found = message(None, comm_msg("lsp-1", r#"{"content":{"port":"9000"}}"#));
    let again = message(None, comm_msg("lsp-1", r#"{"port":9001}"#));
    let closed = message(None, Content::CommClose { comm_id: "lsp-1".to_string(), data: JsonObject::new() });

    let (lines, success) = run_lsp("lsp-1", &[noise.clone(), found.clone(), again.clone(), closed.clone()]);
    assert_eq!(success, Some(true));
    assert_eq!(port(&lines), 1);
    assert_eq!(lines, vec![r#"{"event":"lsp_port","port":9000}"#.to_string()]);

    let (lines, success) = run_lsp("lsp-1", &[noise.clone(), closed, found.clone()]);
    assert_eq!(success, Some(false));
    assert_eq!(port(&lines), 0);
    assert_eq!(lines, vec![r#"{"event":"error","message":"Comm closed before LSP port was received"}"#.to_string()]);

    let (lines, success) = run_lsp("lsp-1", &[noise.clone(), ReadOutcome::TimedOut, found]);
    assert_eq!(success, Some(false));
    assert_eq!(port(&lines), 0);

    let (lines, success) = run_lsp("lsp-1", &[noise.clone(), noise]);
    assert_eq!(success, None);
    assert!(lines.is_empty());
}

#[test]
fn execute_without_wait() {
    assert_eq!(execute_request("1+1"), Content::ExecuteRequest { code: "1+1".to_string() });
    assert_eq!(execute_request("1+1").message_type(), Some("execute_request"));
    assert!(!uses_iopub(Mode::Execute, false));
}

#[test]
fn execute_with_wait() {
    assert!(uses_iopub(Mode::Execute, true));
    let busy = message(Some("req-1"), status(ExecutionState::Busy));
    let idle = message(Some("req-1"), status(ExecutionState::Idle));
    assert_eq!(idle_step("req-1", &busy), ModeStep::Wait);
    assert_eq!(idle_step("req-1", &idle), ModeStep::Finish { event: None });
}

#[test]
fn idle_wait_needs_matching_parent_and_idle_state() {
    assert_eq!(idle_step("req-1", &message(Some("req-2"), status(ExecutionState::Idle))), ModeStep::Wait);
    assert_eq!(idle_step("req-1", &message(None, status(ExecutionState::Idle))), ModeStep::Wait);
    assert_eq!(idle_step("req-1", &message(Some("req-1"), status(ExecutionState::Starting))), ModeStep::Wait);
    assert_eq!(idle_step("req-1", &message(Some("req-1"), status(ExecutionState::Other))), ModeStep::Wait);
    assert_eq!(idle_step("req-1", &message(Some("req-1"), Content::Other)), ModeStep::Wait);
    assert_eq!(
        idle_step("req-1", &ReadOutcome::TimedOut),
        ModeStep::Fail { error: SidecarError { kind: ErrorKind::Timeout, message: "Timed out waiting for iopub idle".to_string() } }
    );
    assert_eq!(
        idle_step("req-1", &failed(ReadFailureKind::Decode)),
        ModeStep::Fail { error: SidecarError { kind: ErrorKind::Decode, message: "broken pipe".to_string() } }
    );
}

#[test]
fn answers_compares_the_parent() {
    let reply = KernelMessage { parent_msg_id: Some("req-1".to_string()), content: Content::Other };
    assert!(answers(&reply, "req-1"));
    assert!(!answers(&reply, "req-10"));
    assert!(!answers(&KernelMessage { parent_msg_id: None, content: Content::Other }, ""));
}

#[test]
fn check_with_sloppy_kernel() {
    let step = check_step("probe", &failed(ReadFailureKind::Decode));
    assert_eq!(step, ModeStep::Finish { event: Some(SidecarEvent::Alive) });
    assert_eq!(SidecarEvent::Alive.line(), r#"{"event":"alive"}"#);
}

#[test]
fn check_waits_for_an_answer_to_the_probe() {
    assert_eq!(kernel_info_request(), Content::KernelInfoRequest);
    assert_eq!(kernel_info_request().message_type(), Some("kernel_info_request"));
    assert!(!uses_iopub(Mode::Check, true));
    assert_eq!(check_step("probe", &message(Some("probe"), Content::Other)), ModeStep::Finish { event: Some(SidecarEvent::Alive) });
    assert_eq!(check_step("probe", &message(Some("probe"), status(ExecutionState::Busy))), ModeStep::Finish { event: Some(SidecarEvent::Alive) });
    assert_eq!(check_step("probe", &message(Some("other"), Content::Other)), ModeStep::Wait);
    assert_eq!(check_step("probe", &message(None, Content::Other)), ModeStep::Wait);
    assert_eq!(
        check_step("probe", &ReadOutcome::TimedOut),
        ModeStep::Fail { error: SidecarError { kind: ErrorKind::Timeout, message: "Timed out waiting for kernel response".to_string() } }
    );
    assert_eq!(
        check_step("probe", &failed(ReadFailureKind::Socket)),
        ModeStep::Fail { error: SidecarError { kind: ErrorKind::Socket, message: "broken pipe".to_string() } }
    );
    assert_eq!(
        check_step("probe", &failed(ReadFailureKind::SignatureMismatch)),
        ModeStep::Fail { error: SidecarError { kind: ErrorKind::SignatureMismatch, message: "broken pipe".to_string() } }
    );
}

#[test]
fn remaining_wait_counts_down_to_timeout() {
    assert_eq!(remaining_wait(15000, 0), Some(15000));
    assert_eq!(remaining_wait(15000, 14999), Some(1));
    assert_eq!(remaining_wait(15000, 15000), None);
    assert_eq!(remaining_wait(15000, 15001), None);
    assert_eq!(remaining_wait(0, 0), None);
    assert_eq!(remaining_wait(u64::MAX, 1), Some(u64::MAX - 1));
}

#[test]
fn errors_exit_with_one_and_report_their_message() {
    let error = SidecarError::new(ErrorKind::Timeout, "too late");
    assert_eq!(error.event(), SidecarEvent::Error { message: "too late".to_string() });
    assert_eq!(error.event().line(), r#"{"event":"error","message":"too late"}"#);
    assert_eq!(exit_code(&Err(error)), 1);
    let read = ReadFailure { kind: ReadFailureKind::Socket, message: "gone".to_string(), detail: String::new() };
    assert_eq!(read_error(&read), SidecarError { kind: ErrorKind::Socket, message: "gone".to_string() });
}

#[test]
fn modes_that_listen_on_iopub() {
    assert!(uses_iopub(Mode::Lsp, false));
    assert!(uses_iopub(Mode::WatchPlot, false));
    assert!(!uses_iopub(Mode::Check, false));
}

#[test]
fn read_connection_accepts_hmac_sha256() {
    let info = read_connection(&connection_text("hmac-sha256")).expect("connection");
    assert_eq!(
        info,
        ConnectionInfo {
            transport: "tcp".to_string(),
            ip: "127.0.0.1".to_string(),
            shell_port: 6001,
            iopub_port: 6002,
            stdin_port: 6003,
            control_port: 6004,
            hb_port: 6005,
            key: "secret".to_string(),
            signature_scheme: "hmac-sha256".to_string(),
            kernel_name: Some("ark".to_string()),
        }
    );
}

#[test]
fn read_connection_refuses_other_schemes() {
    let result = read_connection(&connection_text("hmac-md5"));
    assert_eq!(result, Err(ConfigError::UnsupportedSignatureScheme { scheme: "hmac-md5".to_string() }));
    let error = result.unwrap_err().to_error();
    assert_eq!(error.kind, ErrorKind::Config);
    assert_eq!(error.message, "Unsupported signature scheme: hmac-md5");
    assert!(matches!(read_connection(&connection_text("")), Err(ConfigError::UnsupportedSignatureScheme { .. })));
}

#[test]
fn read_connection_refuses_malformed_files() {
    for text in ["", "{}", "[]", r#"{"transport":"tcp"}"#, "not json"] {
        match read_connection(text) {
            Err(ConfigError::Malformed { reason }) => assert!(!reason.is_empty()),
            other => panic!("unexpected result {:?}", other),
        }
    }
    let bad_port = connection_text("hmac-sha256").replace("6001", "70000");
    assert!(matches!(read_connection(&bad_port), Err(ConfigError::Malformed { .. })));
}

#[test]
fn read_connection_tolerates_missing_kernel_name() {
    let text = connection_text("hmac-sha256").replace(",\"kernel_name\":\"ark\"", "");
    assert_eq!(read_connection(&text).expect("connection").kernel_name, None);
}

#[test]
fn check_connection_decides_on_the_scheme() {
    assert_eq!(check_connection(Err("eof".to_string())), Err(ConfigError::Malformed { reason: "eof".to_string() }));
    let error = ConfigError::Malformed { reason: "eof".to_string() }.to_error();
    assert_eq!(error, SidecarError { kind: ErrorKind::Config, message: "eof".to_string() });
}

#[test]
fn shell_identity_has_the_sidecar_prefix() {
    assert_eq!(shell_identity("1234"), "sidecar-1234");
    assert_eq!(shell_identity(""), "sidecar-");
}
