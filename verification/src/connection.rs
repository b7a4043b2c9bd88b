//! The connection file that a kernel writes for its clients.

use crate::error::{ErrorKind, SidecarError};
use crate::text::{same_text, string_view};
use crate::types::{Mode, SUPPORTED_SIGNATURE_SCHEME};
use vstd::prelude::*;

verus! {

/// What a connection file says: where the kernel listens and how messages
/// are signed.
#[derive(Clone, Debug, PartialEq, Eq)]
pub struct ConnectionInfo {
    /// The transport, `tcp` or `ipc`.
    pub transport: String,
    pub ip: String,
    pub shell_port: u16,
    pub iopub_port: u16,
    pub stdin_port: u16,
    pub control_port: u16,
    pub hb_port: u16,
    /// The key that signs messages; empty where they are not signed.
    pub key: String,
    pub signature_scheme: String,
    pub kernel_name: Option<String>,
}

/// What a [`ConnectionInfo`] stands for.
pub struct ConnectionView {
    pub transport: Seq<char>,
    pub ip: Seq<char>,
    pub shell_port: u16,
    pub iopub_port: u16,
    pub stdin_port: u16,
    pub control_port: u16,
    pub hb_port: u16,
    pub key: Seq<char>,
    pub signature_scheme: Seq<char>,
    pub kernel_name: Option<Seq<char>>,
}

impl View for ConnectionInfo {
    type V = ConnectionView;

    open spec fn view(&self) -> ConnectionView {
        ConnectionView {
            transport: self.transport@,
            ip: self.ip@,
            shell_port: self.shell_port,
            iopub_port: self.iopub_port,
            stdin_port: self.stdin_port,
            control_port: self.control_port,
            hb_port: self.hb_port,
            key: self.key@,
            signature_scheme: self.signature_scheme@,
            kernel_name: string_view(self.kernel_name),
        }
    }
}

/// Why a connection file cannot be used.
#[derive(Clone, Debug, PartialEq, Eq)]
pub enum ConfigError {
    /// The text does not describe a connection; with the parser's complaint.
    Malformed { reason: String },
    /// The file names a signature scheme other than `hmac-sha256`.
    UnsupportedSignatureScheme { scheme: String },
}

/// What a [`ConfigError`] stands for.
pub enum ConfigErrorView {
    Malformed { reason: Seq<char> },
    UnsupportedSignatureScheme { scheme: Seq<char> },
}

impl View for ConfigError {
    type V = ConfigErrorView;

    open spec fn view(&self) -> ConfigErrorView {
        match self {
            ConfigError::Malformed { reason } => ConfigErrorView::Malformed { reason: reason@ },
            ConfigError::UnsupportedSignatureScheme {
                scheme,
            } => ConfigErrorView::UnsupportedSignatureScheme { scheme: scheme@ },
        }
    }
}

/// What `serde_json` reads from the text of a connection file as a
/// `ConnectionInfo` of `runtimelib`: its fields, or the parser's complaint.
pub uninterp spec fn described_connection(text: Seq<char>) -> Result<ConnectionView, Seq<char>>;

/// What a described connection stands for.
pub open spec fn described_view(described: Result<ConnectionInfo, String>) -> Result<
    ConnectionView,
    Seq<char>,
> {
    match described {
        Ok(info) => Ok(info@),
        Err(reason) => Err(reason@),
    }
}

/// Reads the text of a connection file with `serde_json::from_str` as a
/// `ConnectionInfo` of `runtimelib` and copies its fields, the transport by
/// its name; on failure hands out the parser's message. The result depends
/// on the text alone; it is named `described_connection` and not described
/// further.
#[verifier::external_body]
fn describe_connection(text: &str) -> (described: Result<ConnectionInfo, String>)
    ensures
        described_view(described) == described_connection(text@),
{
    let info = serde_json::from_str::<runtimelib::ConnectionInfo>(text).map_err(|e| e.to_string())?;
    Ok(ConnectionInfo {
        transport: info.transport.to_string(),
        ip: info.ip,
        shell_port: info.shell_port,
        iopub_port: info.iopub_port,
        stdin_port: info.stdin_port,
        control_port: info.control_port,
        hb_port: info.hb_port,
        key: info.key,
        signature_scheme: info.signature_scheme,
        kernel_name: info.kernel_name,
    })
}

/// The connection to use, given what the parser made of the file: the
/// described connection where its signature scheme is `hmac-sha256`, an
/// error for any other scheme and for a text that describes none.
pub open spec fn connection_of(described: Result<ConnectionView, Seq<char>>) -> Result<
    ConnectionView,
    ConfigErrorView,
> {
    match described {
        Ok(info) => if info.signature_scheme == SUPPORTED_SIGNATURE_SCHEME@ {
            Ok(info)
        } else {
            Err(ConfigErrorView::UnsupportedSignatureScheme { scheme: info.signature_scheme })
        },
        Err(reason) => Err(ConfigErrorView::Malformed { reason }),
    }
}

/// What a result of reading a connection file stands for.
pub open spec fn connection_result_view(result: Result<ConnectionInfo, ConfigError>) -> Result<
    ConnectionView,
    ConfigErrorView,
> {
    match result {
        Ok(info) => Ok(info@),
        Err(e) => Err(e@),
    }
}

/// Accepts or refuses what the parser made of a connection file.
pub fn check_connection(described: Result<ConnectionInfo, String>) -> (result: Result<
    ConnectionInfo,
    ConfigError,
>)
    ensures
        connection_result_view(result) == connection_of(described_view(described)),
{
    match described {
        Ok(info) => {
            if same_text(info.signature_scheme.as_str(), SUPPORTED_SIGNATURE_SCHEME) {
                Ok(info)
            } else {
                let scheme = info.signature_scheme.clone();
                Err(ConfigError::UnsupportedSignatureScheme { scheme })
            }
        },
        Err(reason) => Err(ConfigError::Malformed { reason }),
    }
}

/// Reads the text of a connection file.
pub fn read_connection(text: &str) -> (result: Result<ConnectionInfo, ConfigError>)
    ensures
        connection_result_view(result) == connection_of(described_connection(text@)),
{
    check_connection(describe_connection(text))
}

/// The message that reports a configuration error.
pub open spec fn config_error_message(error: ConfigErrorView) -> Seq<char> {
    match error {
        ConfigErrorView::Malformed { reason } => reason,
        ConfigErrorView::UnsupportedSignatureScheme {
            scheme,
        } => "Unsupported signature scheme: "@ + scheme,
    }
}

impl ConfigError {
    /// This error as a fatal configuration error.
    pub fn to_error(&self) -> (error: SidecarError)
        ensures
            error@.kind == ErrorKind::Config,
            error@.message == config_error_message(self@),
    {
        match self {
            ConfigError::Malformed { reason } => SidecarError {
                kind: ErrorKind::Config,
                message: reason.clone(),
            },
            ConfigError::UnsupportedSignatureScheme { scheme } => {
                let mut message = "Unsupported signature scheme: ".to_string();
                message.append(scheme.as_str());
                SidecarError { kind: ErrorKind::Config, message }
            },
        }
    }
}

/// The identity under which the shell socket connects: `sidecar-` and a
/// unique part.
pub fn shell_identity(unique: &str) -> (identity: String)
    ensures
        identity@ == "sidecar-"@ + unique@,
{
    let mut identity = "sidecar-".to_string();
    identity.append(unique);
    identity
}

/// Whether a mode listens on IOPub: Lsp and watch mode always, Execute mode
/// where it waits for idle, Check mode never.
pub open spec fn listens_on_iopub(mode: Mode, wait_for_idle: bool) -> bool {
    match mode {
        Mode::Lsp => true,
        Mode::Execute => wait_for_idle,
        Mode::WatchPlot => true,
        Mode::Check => false,
    }
}

/// Whether the run opens an IOPub socket beside the shell socket.
pub fn uses_iopub(mode: Mode, wait_for_idle: bool) -> (yes: bool)
    ensures
        yes == listens_on_iopub(mode, wait_for_idle),
{
    match mode {
        Mode::Lsp => true,
        Mode::Execute => wait_for_idle,
        Mode::WatchPlot => true,
        Mode::Check => false,
    }
}

} // verus!
