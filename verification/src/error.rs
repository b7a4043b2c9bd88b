//! How a run of the sidecar fails.

use crate::event::{EventView, SidecarEvent};
use vstd::prelude::*;

verus! {

/// The kinds of fatal error.
#[derive(Clone, Copy, Debug, PartialEq, Eq, Structural)]
pub enum ErrorKind {
    /// A required flag is missing, or the connection file is malformed or
    /// names an unsupported signature scheme.
    Config,
    /// A socket could not connect, send or receive.
    Socket,
    /// An inbound message failed its signature check.
    SignatureMismatch,
    /// A message could not be decoded.
    Decode,
    /// A deadlined wait ended without the message it waited for.
    Timeout,
    /// The kernel closed the language-server comm before it named a port.
    CommClosed,
}

/// A fatal error: its kind and the message that the editor is shown.
#[derive(Clone, Debug, PartialEq, Eq)]
pub struct SidecarError {
    pub kind: ErrorKind,
    pub message: String,
}

/// What a [`SidecarError`] stands for.
pub struct ErrorView {
    pub kind: ErrorKind,
    pub message: Seq<char>,
}

impl View for SidecarError {
    type V = ErrorView;

    open spec fn view(&self) -> ErrorView {
        ErrorView { kind: self.kind, message: self.message@ }
    }
}

/// The exit code of a run: 0 where it succeeded, 1 where it failed.
pub open spec fn exit_code_of(failed: bool) -> i32 {
    if failed {
        1
    } else {
        0
    }
}

impl SidecarError {
    /// An error of the given kind with the given message.
    pub fn new(kind: ErrorKind, message: &str) -> (error: SidecarError)
        ensures
            error@ == (ErrorView { kind, message: message@ }),
    {
        SidecarError { kind, message: message.to_string() }
    }

    /// The event that reports this error to the editor.
    pub fn event(&self) -> (event: SidecarEvent)
        ensures
            event@ == (EventView::Error { message: self@.message }),
    {
        SidecarEvent::Error { message: self.message.clone() }
    }
}

/// The exit code of a run that ended with `result`.
pub fn exit_code(result: &Result<(), SidecarError>) -> (code: i32)
    ensures
        code == exit_code_of(result is Err),
{
    match result {
        Ok(_) => 0,
        Err(_) => 1,
    }
}

} // verus!
