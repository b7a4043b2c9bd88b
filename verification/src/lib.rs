//! Decision logic of a sidecar that bridges an editor to a Jupyter kernel.
//!
//! The crate holds the rules by which kernel traffic becomes editor events,
//! editor commands become kernel requests, and replies are matched to the
//! requests that caused them, and it frames, signs and checks the messages
//! that travel to and from the kernel. Sockets, clocks and standard streams
//! stay with the caller, which feeds the functions here and carries out what
//! they decide.

pub mod args;
pub mod check;
pub mod command;
pub mod connection;
pub mod error;
pub mod event;
pub mod execute;
pub mod json;
pub mod logging;
pub mod lsp;
pub mod message;
pub mod pending;
pub mod port;
pub mod text;
pub mod types;
pub mod wait;
pub mod watch;
pub mod wire;
