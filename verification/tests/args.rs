use ark_sidecar::args::{code_from_decoded, decode_code, parse_args_from, parse_timeout, ArgsError, CodeError};
use ark_sidecar::error::ErrorKind;
use ark_sidecar::types::{Args, Mode, DEFAULT_TIMEOUT_MS};
use base64::Engine;

fn strings(items: &[&str]) -> Vec<String> {
    items.iter().map(|s| s.to_string()).collect()
}

fn execute_args(code: Option<&str>, code_is_base64: bool) -> Args {
    Args {
        connection_file: "connection.json".to_string(),
        ip_address: None,
        timeout_ms: DEFAULT_TIMEOUT_MS,
        mode: Mode::Execute,
        code: code.map(|c| c.to_string()),
        code_is_base64,
        wait_for_idle: false,
    }
}

#[test]
fn parse_args_defaults_to_lsp() {
    let args = parse_args_from(vec![
        "--connection-file".to_string(),
        "connection.json".to_string(),
        "--ip-address".to_string(),
        "127.0.0.1".to_string(),
    ])
    .expect("parse args");

    assert!(matches!(args.mode, Mode::Lsp));
    assert_eq!(args.connection_file, "connection.json");
    assert_eq!(args.ip_address.as_deref(), Some("127.0.0.1"));
    assert_eq!(args.timeout_ms, DEFAULT_TIMEOUT_MS);
}

#[test]
fn parse_args_execute_sets_code() {
    let args = parse_args_from(vec![
        "--execute".to_string(),
        "--connection-file".to_string(),
        "connection.json".to_string(),
        "--code".to_string(),
        "1 + 1".to_string(),
        "--wait-for-idle".to_string(),
    ])
    .expect("parse args");

    assert!(matches!(args.mode, Mode::Execute));
    assert_eq!(args.code.as_deref(), Some("1 + 1"));
    assert!(args.wait_for_idle);
}

#[test]
fn decode_code_handles_base64() {
    let encoded = base64::engine::general_purpose::STANDARD.encode("plot(1:10)");
    let args = Args {
        connection_file: "connection.json".to_string(),
        ip_address: None,
        timeout_ms: DEFAULT_TIMEOUT_MS,
        mode: Mode::Execute,
        code: Some(encoded),
        code_is_base64: true,
        wait_for_idle: false,
    };

    let decoded = decode_code(&args).expect("decode code");
    assert_eq!(decoded, "plot(1:10)");
}

#[test]
fn decode_code_returns_plain_text() {
    let args = Args {
        connection_file: "connection.json".to_string(),
        ip_address: None,
        timeout_ms: DEFAULT_TIMEOUT_MS,
        mode: Mode::Execute,
        code: Some("summary(x)".to_string()),
        code_is_base64: false,
        wait_for_idle: false,
    };

    let decoded = decode_code(&args).expect("decode code");
    assert_eq!(decoded, "summary(x)");
}

#[test]
fn default_timeout_is_fifteen_seconds() {
    assert_eq!(DEFAULT_TIMEOUT_MS, 15000);
}

#[test]
fn parse_args_reads_every_flag() {
    let args = parse_args_from(strings(&[
        "--watch-plot",
        "--connection-file",
        "c.json",
        "--timeout-ms",
        "250",
        "--code-base64",
        "--code",
        "eA==",
        "--ip-address",
        "10.0.0.1",
    ]))
    .expect("parse args");
    assert_eq!(
        args,
        Args {
            connection_file: "c.json".to_string(),
            ip_address: Some("10.0.0.1".to_string()),
            timeout_ms: 250,
            mode: Mode::WatchPlot,
            code: Some("eA==".to_string()),
            code_is_base64: true,
            wait_for_idle: false,
        }
    );
}

#[test]
fn parse_args_check_mode_needs_only_connection_file() {
    let args = parse_args_from(strings(&["--check", "--connection-file", "c.json"])).expect("parse args");
    assert_eq!(args.mode, Mode::Check);
    assert_eq!(args.ip_address, None);
    assert_eq!(args.code, None);
}

#[test]
fn parse_args_repeated_flag_keeps_last_value() {
    let args = parse_args_from(strings(&[
        "--connection-file",
        "first.json",
        "--check",
        "--connection-file",
        "second.json",
        "--execute",
        "--check",
    ]))
    .expect("parse args");
    assert_eq!(args.connection_file, "second.json");
    assert_eq!(args.mode, Mode::Check);
}

#[test]
fn parse_args_requires_connection_file() {
    assert_eq!(parse_args_from(strings(&["--check"])), Err(ArgsError::MissingConnectionFile));
    assert_eq!(parse_args_from(Vec::new()), Err(ArgsError::MissingConnectionFile));
}

#[test]
fn parse_args_flag_without_value_clears_it() {
    let result = parse_args_from(strings(&["--check", "--connection-file", "c.json", "--connection-file"]));
    assert_eq!(result, Err(ArgsError::MissingConnectionFile));
}

#[test]
fn parse_args_execute_requires_code() {
    let result = parse_args_from(strings(&["--execute", "--connection-file", "c.json"]));
    assert_eq!(result, Err(ArgsError::MissingCode));
}

#[test]
fn parse_args_lsp_requires_ip_address() {
    let result = parse_args_from(strings(&["--connection-file", "c.json"]));
    assert_eq!(result, Err(ArgsError::MissingIpAddress));
}

#[test]
fn parse_args_help_comes_before_complaints() {
    assert_eq!(parse_args_from(strings(&["--help"])), Err(ArgsError::HelpRequested));
    assert_eq!(parse_args_from(strings(&["--execute", "-h", "--connection-file", "c.json"])), Err(ArgsError::HelpRequested));
}

#[test]
fn parse_args_value_is_taken_even_if_it_looks_like_a_flag() {
    let args = parse_args_from(strings(&["--check", "--connection-file", "--help"])).expect("parse args");
    assert_eq!(args.connection_file, "--help");
}

#[test]
fn parse_args_passes_over_unknown_arguments() {
    let args = parse_args_from(strings(&["stray", "--check", "--verbose", "--connection-file", "c.json"])).expect("parse args");
    assert_eq!(args.mode, Mode::Check);
    assert_eq!(args.connection_file, "c.json");
}

#[test]
fn parse_args_bad_timeout_falls_back_to_default() {
    let args = parse_args_from(strings(&["--check", "--connection-file", "c.json", "--timeout-ms", "77", "--timeout-ms", "soon"])).expect("parse args");
    assert_eq!(args.timeout_ms, DEFAULT_TIMEOUT_MS);
}

#[test]
fn parse_timeout_reads_decimal_or_defaults() {
    assert_eq!(parse_timeout("0"), 0);
    assert_eq!(parse_timeout("+42"), 42);
    assert_eq!(parse_timeout("007"), 7);
    assert_eq!(parse_timeout("18446744073709551615"), u64::MAX);
    assert_eq!(parse_timeout("18446744073709551616"), DEFAULT_TIMEOUT_MS);
    assert_eq!(parse_timeout(""), DEFAULT_TIMEOUT_MS);
    assert_eq!(parse_timeout("+"), DEFAULT_TIMEOUT_MS);
    assert_eq!(parse_timeout("-1"), DEFAULT_TIMEOUT_MS);
    assert_eq!(parse_timeout("1 "), DEFAULT_TIMEOUT_MS);
    assert_eq!(parse_timeout("1.5"), DEFAULT_TIMEOUT_MS);
}

#[test]
fn parse_timeout_agrees_with_std() {
    for text in ["0", "+0", "15000", "99999999999999999999", "++1", "1_000", "١٢", "+18446744073709551615"] {
        assert_eq!(parse_timeout(text), text.parse::<u64>().unwrap_or(DEFAULT_TIMEOUT_MS), "{}", text);
    }
}

#[test]
fn decode_code_without_code_is_empty() {
    assert_eq!(decode_code(&execute_args(None, false)), Ok(String::new()));
    assert_eq!(decode_code(&execute_args(None, true)), Ok(String::new()));
}

#[test]
fn decode_code_rejects_invalid_base64() {
    assert_eq!(decode_code(&execute_args(Some("not base64!"), true)), Err(CodeError::InvalidBase64));
}

#[test]
fn decode_code_rejects_invalid_utf8() {
    let encoded = base64::engine::general_purpose::STANDARD.encode([0xffu8, 0xfe]);
    assert_eq!(decode_code(&execute_args(Some(&encoded), true)), Err(CodeError::InvalidUtf8));
}

#[test]
fn decode_code_decodes_multibyte_text() {
    let encoded = base64::engine::general_purpose::STANDARD.encode("x <- \"é\"");
    assert_eq!(decode_code(&execute_args(Some(&encoded), true)), Ok("x <- \"é\"".to_string()));
}

#[test]
fn code_from_decoded_covers_each_outcome() {
    assert_eq!(code_from_decoded(None), Err(CodeError::InvalidBase64));
    assert_eq!(code_from_decoded(Some(vec![0x80])), Err(CodeError::InvalidUtf8));
    assert_eq!(code_from_decoded(Some(b"1+1".to_vec())), Ok("1+1".to_string()));
}

#[test]
fn argument_errors_are_config_errors() {
    let error = ArgsError::MissingConnectionFile.to_error();
    assert_eq!(error.kind, ErrorKind::Config);
    assert_eq!(error.message, "--connection-file is required");
    assert_eq!(ArgsError::MissingCode.message(), "--code is required for --execute");
    assert_eq!(ArgsError::MissingIpAddress.message(), "--ip-address is required");
    assert_eq!(CodeError::InvalidBase64.to_error().message, "Failed to decode base64 code");
    assert_eq!(CodeError::InvalidUtf8.message(), "Decoded code is not valid UTF-8");
}
