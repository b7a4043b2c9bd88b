//! Reading the command line.
//!
//! Flags are read from left to right. A flag that takes a value consumes the
//! argument after it, whatever that is; a repeated flag keeps its last
//! value; an argument that is no known flag is passed over. `-h` or `--help`
//! ends the reading at once.

use crate::error::{ErrorKind, SidecarError};
use crate::text::{bounded_decimal, parse_bounded, same_text, string_view};
use crate::types::{Args, ArgsView, Mode, DEFAULT_TIMEOUT_MS};
use base64::Engine;
use vstd::prelude::*;
use vstd::utf8::{decode_utf8, valid_utf8};

verus! {

/// Why the command line yields no arguments to run with.
#[derive(Clone, Copy, Debug, PartialEq, Eq, Structural)]
pub enum ArgsError {
    /// `--connection-file` is absent.
    MissingConnectionFile,
    /// `--execute` without `--code`.
    MissingCode,
    /// Lsp mode without `--ip-address`.
    MissingIpAddress,
    /// `-h` or `--help` was given: the caller prints the usage and exits
    /// with success.
    HelpRequested,
}

/// What has been read of a command line.
pub struct ScanView {
    pub connection_file: Option<Seq<char>>,
    pub ip_address: Option<Seq<char>>,
    pub timeout_ms: u64,
    pub mode: Mode,
    pub code: Option<Seq<char>>,
    pub code_is_base64: bool,
    pub wait_for_idle: bool,
    pub help: bool,
}

/// What is assumed before anything is read: Lsp mode, the default timeout,
/// nothing else.
pub open spec fn scan_start() -> ScanView {
    ScanView {
        connection_file: None,
        ip_address: None,
        timeout_ms: DEFAULT_TIMEOUT_MS,
        mode: Mode::Lsp,
        code: None,
        code_is_base64: false,
        wait_for_idle: false,
        help: false,
    }
}

/// The argument after the one at `at`, if there is one.
pub open spec fn value_after(args: Seq<Seq<char>>, at: int) -> Option<Seq<char>> {
    if at + 1 < args.len() {
        Some(args[at + 1])
    } else {
        None
    }
}

/// The index at which the reading goes on after a flag at `at` has taken
/// its value: behind the value, or at the end where there was none.
pub open spec fn after_value(args: Seq<Seq<char>>, at: int) -> int {
    if at + 1 < args.len() {
        at + 2
    } else {
        at + 1
    }
}

/// The timeout that `text` sets: its value where it is an unsigned decimal
/// number that fits in 64 bits, the default otherwise.
pub open spec fn timeout_from(text: Seq<char>) -> u64 {
    match bounded_decimal(text, u64::MAX as nat) {
        Some(n) => n as u64,
        None => DEFAULT_TIMEOUT_MS,
    }
}

/// What has been read once the arguments from index `at` on are read too.
pub open spec fn scan_from(args: Seq<Seq<char>>, at: int, state: ScanView) -> ScanView
    decreases args.len() - at,
{
    if at < 0 || at >= args.len() || state.help {
        state
    } else if args[at] == "--connection-file"@ {
        scan_from(
            args,
            after_value(args, at),
            ScanView { connection_file: value_after(args, at), ..state },
        )
    } else if args[at] == "--ip-address"@ {
        scan_from(
            args,
            after_value(args, at),
            ScanView { ip_address: value_after(args, at), ..state },
        )
    } else if args[at] == "--timeout-ms"@ {
        match value_after(args, at) {
            Some(text) => scan_from(
                args,
                at + 2,
                ScanView { timeout_ms: timeout_from(text), ..state },
            ),
            None => scan_from(args, at + 1, state),
        }
    } else if args[at] == "--execute"@ {
        scan_from(args, at + 1, ScanView { mode: Mode::Execute, ..state })
    } else if args[at] == "--watch-plot"@ {
        scan_from(args, at + 1, ScanView { mode: Mode::WatchPlot, ..state })
    } else if args[at] == "--check"@ {
        scan_from(args, at + 1, ScanView { mode: Mode::Check, ..state })
    } else if args[at] == "--code"@ {
        scan_from(args, after_value(args, at), ScanView { code: value_after(args, at), ..state })
    } else if args[at] == "--code-base64"@ {
        scan_from(args, at + 1, ScanView { code_is_base64: true, ..state })
    } else if args[at] == "--wait-for-idle"@ {
        scan_from(args, at + 1, ScanView { wait_for_idle: true, ..state })
    } else if args[at] == "-h"@ || args[at] == "--help"@ {
        ScanView { help: true, ..state }
    } else {
        scan_from(args, at + 1, state)
    }
}

/// The arguments that a finished reading yields, or why it yields none: a
/// request for help comes before any complaint, then the connection file is
/// required, then the code in Execute mode and the address in Lsp mode.
pub open spec fn scan_result(state: ScanView) -> Result<ArgsView, ArgsError> {
    if state.help {
        Err(ArgsError::HelpRequested)
    } else if state.connection_file is None {
        Err(ArgsError::MissingConnectionFile)
    } else if state.mode == Mode::Execute && state.code is None {
        Err(ArgsError::MissingCode)
    } else if state.mode == Mode::Lsp && state.ip_address is None {
        Err(ArgsError::MissingIpAddress)
    } else {
        Ok(
            ArgsView {
                connection_file: state.connection_file->0,
                ip_address: state.ip_address,
                timeout_ms: state.timeout_ms,
                mode: state.mode,
                code: state.code,
                code_is_base64: state.code_is_base64,
                wait_for_idle: state.wait_for_idle,
            },
        )
    }
}

/// The characters of each of `args`.
pub open spec fn texts(args: Seq<String>) -> Seq<Seq<char>> {
    Seq::new(args.len(), |i: int| args[i]@)
}

/// What a command line yields.
pub open spec fn parsed_args(args: Seq<Seq<char>>) -> Result<ArgsView, ArgsError> {
    scan_result(scan_from(args, 0, scan_start()))
}

/// What a result of reading the command line stands for.
pub open spec fn args_result_view(result: Result<Args, ArgsError>) -> Result<ArgsView, ArgsError> {
    match result {
        Ok(args) => Ok(args@),
        Err(e) => Err(e),
    }
}

/// Reads the timeout that `text` sets.
pub fn parse_timeout(text: &str) -> (timeout_ms: u64)
    ensures
        timeout_ms == timeout_from(text@),
{
    match parse_bounded(text, u64::MAX) {
        Some(n) => n,
        None => DEFAULT_TIMEOUT_MS,
    }
}

/// Reads the command line, without the program's name.
pub fn parse_args_from(args: Vec<String>) -> (result: Result<Args, ArgsError>)
    ensures
        args_result_view(result) == parsed_args(texts(args@)),
{
    let mut connection_file: Option<String> = None;
    let mut ip_address: Option<String> = None;
    let mut timeout_ms: u64 = DEFAULT_TIMEOUT_MS;
    let mut mode = Mode::Lsp;
    let mut code: Option<String> = None;
    let mut code_is_base64 = false;
    let mut wait_for_idle = false;
    let mut help = false;
    let ghost all = texts(args@);
    let n = args.len();
    let mut i: usize = 0;
    while i < n
        invariant
            n == args.len(),
            all == texts(args@),
            i <= n,
            help ==> i == n,
            scan_from(all, 0, scan_start()) == scan_from(
                all,
                i as int,
                ScanView {
                    connection_file: string_view(connection_file),
                    ip_address: string_view(ip_address),
                    timeout_ms,
                    mode,
                    code: string_view(code),
                    code_is_base64,
                    wait_for_idle,
                    help,
                },
            ),
        decreases n - i,
    {
        let arg = args[i].as_str();
        assert(arg@ == all[i as int]);
        let has_value = i + 1 < n;
        let ghost state = ScanView {
            connection_file: string_view(connection_file),
            ip_address: string_view(ip_address),
            timeout_ms,
            mode,
            code: string_view(code),
            code_is_base64,
            wait_for_idle,
            help,
        };
        proof {
            if has_value {
                assert(all[i + 1] == args[i + 1]@);
            }
        }
        let behind: usize = if has_value {
            i + 2
        } else {
            i + 1
        };
        assert(behind == after_value(all, i as int));
        if same_text(arg, "--connection-file") {
            connection_file = if has_value {
                Some(args[i + 1].clone())
            } else {
                None
            };
            i = behind;
        } else if same_text(arg, "--ip-address") {
            ip_address = if has_value {
                Some(args[i + 1].clone())
            } else {
                None
            };
            i = behind;
        } else if same_text(arg, "--timeout-ms") {
            if has_value {
                timeout_ms = parse_timeout(args[i + 1].as_str());
                i = i + 2;
            } else {
                i = i + 1;
            }
        } else if same_text(arg, "--execute") {
            mode = Mode::Execute;
            i = i + 1;
        } else if same_text(arg, "--watch-plot") {
            mode = Mode::WatchPlot;
            i = i + 1;
        } else if same_text(arg, "--check") {
            mode = Mode::Check;
            i = i + 1;
        } else if same_text(arg, "--code") {
            code = if has_value {
                Some(args[i + 1].clone())
            } else {
                None
            };
            i = behind;
        } else if same_text(arg, "--code-base64") {
            code_is_base64 = true;
            i = i + 1;
        } else if same_text(arg, "--wait-for-idle") {
            wait_for_idle = true;
            i = i + 1;
        } else if same_text(arg, "-h") || same_text(arg, "--help") {
            help = true;
            i = n;
        } else {
            i = i + 1;
        }
    }
    if help {
        return Err(ArgsError::HelpRequested);
    }
    let connection_file = match connection_file {
        Some(path) => path,
        None => {
            return Err(ArgsError::MissingConnectionFile);
        },
    };
    if mode == Mode::Execute && code.is_none() {
        return Err(ArgsError::MissingCode);
    }
    if mode == Mode::Lsp && ip_address.is_none() {
        return Err(ArgsError::MissingIpAddress);
    }
    Ok(Args { connection_file, ip_address, timeout_ms, mode, code, code_is_base64, wait_for_idle })
}

/// The message of each complaint; none for a request for help.
pub open spec fn args_error_message(error: ArgsError) -> Seq<char> {
    match error {
        ArgsError::MissingConnectionFile => "--connection-file is required"@,
        ArgsError::MissingCode => "--code is required for --execute"@,
        ArgsError::MissingIpAddress => "--ip-address is required"@,
        ArgsError::HelpRequested => ""@,
    }
}

impl ArgsError {
    /// The message that reports this error.
    pub fn message(&self) -> (message: &'static str)
        ensures
            message@ == args_error_message(*self),
    {
        match self {
            ArgsError::MissingConnectionFile => "--connection-file is required",
            ArgsError::MissingCode => "--code is required for --execute",
            ArgsError::MissingIpAddress => "--ip-address is required",
            ArgsError::HelpRequested => "",
        }
    }

    /// This error as a fatal configuration error.
    pub fn to_error(&self) -> (error: SidecarError)
        ensures
            error@.kind == ErrorKind::Config,
            error@.message == args_error_message(*self),
    {
        SidecarError::new(ErrorKind::Config, self.message())
    }
}

/// Why the code to run could not be had.
#[derive(Clone, Copy, Debug, PartialEq, Eq, Structural)]
pub enum CodeError {
    /// The code was marked as base64 and is not.
    InvalidBase64,
    /// The decoded bytes are not UTF-8.
    InvalidUtf8,
}

/// What the standard base64 alphabet with padding decodes `text` to, or
/// `None` where `text` is not such an encoding.
pub uninterp spec fn base64_decoded(text: Seq<char>) -> Option<Seq<u8>>;

/// Decodes `text` with `Engine::decode` of `base64`'s `STANDARD` engine. The
/// result depends on the text alone; it is named `base64_decoded` and not
/// described further.
#[verifier::external_body]
fn base64_decode(text: &str) -> (bytes: Option<Vec<u8>>)
    ensures
        match bytes {
            Some(b) => base64_decoded(text@) == Some(b@),
            None => base64_decoded(text@) is None,
        },
{
    base64::engine::general_purpose::STANDARD.decode(text.as_bytes()).ok()
}

/// Turns bytes into a string with `String::from_utf8`, which succeeds
/// exactly on valid UTF-8 and then holds the characters that the bytes
/// encode.
#[verifier::external_body]
fn string_from_utf8(bytes: Vec<u8>) -> (text: Option<String>)
    ensures
        match text {
            Some(t) => valid_utf8(bytes@) && t@ == decode_utf8(bytes@),
            None => !valid_utf8(bytes@),
        },
{
    String::from_utf8(bytes).ok()
}

/// The code that decoded bytes hold: their characters where they are valid
/// UTF-8; an error where the decoding failed or the bytes are no UTF-8.
pub open spec fn code_from(decoded: Option<Seq<u8>>) -> Result<Seq<char>, CodeError> {
    match decoded {
        Some(bytes) => if valid_utf8(bytes) {
            Ok(decode_utf8(bytes))
        } else {
            Err(CodeError::InvalidUtf8)
        },
        None => Err(CodeError::InvalidBase64),
    }
}

/// The code to run: the `--code` argument as it stands, or what it decodes
/// to where `--code-base64` was given; the empty text without `--code`.
pub open spec fn decoded_code(args: ArgsView) -> Result<Seq<char>, CodeError> {
    let code = match args.code {
        Some(c) => c,
        None => Seq::empty(),
    };
    if args.code_is_base64 {
        code_from(base64_decoded(code))
    } else {
        Ok(code)
    }
}

/// What a result of decoding the code stands for.
pub open spec fn code_result_view(result: Result<String, CodeError>) -> Result<
    Seq<char>,
    CodeError,
> {
    match result {
        Ok(code) => Ok(code@),
        Err(e) => Err(e),
    }
}

/// The bytes of an optional vector.
pub open spec fn bytes_view(bytes: Option<Vec<u8>>) -> Option<Seq<u8>> {
    match bytes {
        Some(b) => Some(b@),
        None => None,
    }
}

/// Turns the outcome of a base64 decoding into the code to run.
pub fn code_from_decoded(decoded: Option<Vec<u8>>) -> (result: Result<String, CodeError>)
    ensures
        code_result_view(result) == code_from(bytes_view(decoded)),
{
    match decoded {
        Some(bytes) => match string_from_utf8(bytes) {
            Some(code) => Ok(code),
            None => Err(CodeError::InvalidUtf8),
        },
        None => Err(CodeError::InvalidBase64),
    }
}

/// Yields the code to run in Execute mode.
pub fn decode_code(args: &Args) -> (result: Result<String, CodeError>)
    ensures
        code_result_view(result) == decoded_code(args@),
{
    let code = match &args.code {
        Some(code) => code.clone(),
        None => String::new(),
    };
    if args.code_is_base64 {
        code_from_decoded(base64_decode(code.as_str()))
    } else {
        Ok(code)
    }
}

/// The message of each failure to decode the code.
pub open spec fn code_error_message(error: CodeError) -> Seq<char> {
    match error {
        CodeError::InvalidBase64 => "Failed to decode base64 code"@,
        CodeError::InvalidUtf8 => "Decoded code is not valid UTF-8"@,
    }
}

impl CodeError {
    /// The message that reports this error.
    pub fn message(&self) -> (message: &'static str)
        ensures
            message@ == code_error_message(*self),
    {
        match self {
            CodeError::InvalidBase64 => "Failed to decode base64 code",
            CodeError::InvalidUtf8 => "Decoded code is not valid UTF-8",
        }
    }

    /// This error as a fatal configuration error.
    pub fn to_error(&self) -> (error: SidecarError)
        ensures
            error@.kind == ErrorKind::Config,
            error@.message == code_error_message(*self),
    {
        SidecarError::new(ErrorKind::Config, self.message())
    }
}

} // verus!
