//! Failures of the remote execution engine.
use vstd::prelude::*;

verus! {

/// A connection parameter that the resolver did not supply.
#[derive(Debug, Clone, Copy, PartialEq, Eq, Structural)]
pub enum MissingField {
    HostName,
    User,
    IdentityFile,
}

/// Every failure that the engine reports to its caller; none is retried.
#[derive(Debug, Clone, Copy, PartialEq, Eq, Structural)]
pub enum KuoriError {
    /// The resolved connection parameters lack a required field.
    MissingParameter { field: MissingField },
    /// The transport connection could not be opened.
    Network,
    /// The SSH handshake failed.
    Handshake,
    /// Public-key authentication failed or left the session unauthenticated.
    Authentication,
    /// The script could not be named, read or transferred.
    Upload,
    /// A command channel could not be opened, started, read or closed.
    Channel,
    /// The remote command exited with a non-zero status.
    CommandExecution { status: i32 },
}

} // verus!
