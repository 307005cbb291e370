//! Error taxonomy of the connection manager.

use vstd::prelude::*;

verus! {

/// A defect in a local-spawn descriptor, found by the command policy
/// before any process is spawned.
#[derive(Debug, Clone, Copy, PartialEq, Eq, Structural)]
pub enum CommandError {
    /// The descriptor carries more arguments than the policy allows.
    ArgumentLimitExceeded,
    /// The descriptor names no command at all.
    MissingCommand,
    /// The descriptor names a command that is not an accepted alias.
    InvalidCommand,
}

/// The failure result of a public operation.
///
/// `BadParameter` surfaces a descriptor defect; `TransportError` a spawn,
/// handshake or remote-connect failure; `ProtocolError` a malformed or
/// failing tool-provider response; `CancellationFailure` an error while
/// retiring a superseded or removed session.  The last is only ever
/// logged by the host, never surfaced to a caller.
#[derive(Debug, PartialEq, Eq)]
pub enum McpError {
    BadParameter(CommandError),
    TransportError(String),
    ProtocolError(String),
    CancellationFailure(String),
}

} // verus!
