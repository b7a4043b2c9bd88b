//! Run modes, command-line arguments and the names the protocol fixes.

use crate::text::string_view;
use vstd::prelude::*;

verus! {

/// What the sidecar is started to do.
#[derive(Clone, Copy, Debug, PartialEq, Eq, Structural)]
pub enum Mode {
    /// Open the language-server comm and report its port.
    Lsp,
    /// Send one execute request.
    Execute,
    /// Relay between the editor and the kernel until standard input ends.
    WatchPlot,
    /// Probe whether the kernel answers.
    Check,
}

/// The command line, read.
#[derive(Clone, Debug, PartialEq, Eq)]
pub struct Args {
    pub connection_file: String,
    pub ip_address: Option<String>,
    pub timeout_ms: u64,
    pub mode: Mode,
    pub code: Option<String>,
    pub code_is_base64: bool,
    pub wait_for_idle: bool,
}

/// What an [`Args`] stands for.
pub struct ArgsView {
    pub connection_file: Seq<char>,
    pub ip_address: Option<Seq<char>>,
    pub timeout_ms: u64,
    pub mode: Mode,
    pub code: Option<Seq<char>>,
    pub code_is_base64: bool,
    pub wait_for_idle: bool,
}

impl View for Args {
    type V = ArgsView;

    open spec fn view(&self) -> ArgsView {
        ArgsView {
            connection_file: self.connection_file@,
            ip_address: string_view(self.ip_address),
            timeout_ms: self.timeout_ms,
            mode: self.mode,
            code: string_view(self.code),
            code_is_base64: self.code_is_base64,
            wait_for_idle: self.wait_for_idle,
        }
    }
}

/// Target name of the language-server comm.
pub const LSP_COMM_TARGET: &'static str = "positron.lsp";

/// Target name of the plot comm.
pub const PLOT_COMM_TARGET: &'static str = "positron.plot";

/// Target name of the UI comm.
pub const UI_COMM_TARGET: &'static str = "positron.ui";

/// Target name of the help comm.
pub const HELP_COMM_TARGET: &'static str = "positron.help";

/// Target name of the variables comm.
pub const VARIABLES_COMM_TARGET: &'static str = "positron.variables";

/// Target name of the data explorer comm.
pub const DATA_EXPLORER_COMM_TARGET: &'static str = "positron.dataExplorer";

/// How long a deadlined wait lasts where the command line does not say.
pub const DEFAULT_TIMEOUT_MS: u64 = 15000;

/// The one signature scheme that is accepted.
pub const SUPPORTED_SIGNATURE_SCHEME: &'static str = "hmac-sha256";

} // verus!
