use vstd::prelude::*;

verus! {

/// The control-plane call that failed.
#[derive(Debug, Clone, Copy, PartialEq, Eq, Structural)]
pub enum Call {
    /// The liveness probe, when it fails other than at the connection level.
    Health,
    SealStatus,
    Init,
    Unseal,
    SnapshotForce,
}

/// What went wrong with a control-plane call.
#[derive(Debug, Clone)]
pub enum Fault {
    /// Transport error, non-success status or undecodable body, in the
    /// driver's words (for a rejected request, the server's answer).
    Reported(String),
    /// Initialization answered with a number of key shares other than one.
    KeyCount(usize),
}

/// An input the operator has to supply for the chosen flow.
#[derive(Debug, Clone, Copy, PartialEq, Eq, Structural)]
pub enum Input {
    SnapshotSource,
    UnsealKey,
}

/// Why a snapshot reference could not be turned into a byte stream.
#[derive(Debug, Clone)]
pub enum SourceError {
    /// The reference names a scheme without a handler; the scheme is kept.
    UnsupportedScheme(String),
    /// A `file` reference that names no local path.
    NotALocalPath,
    /// The local file could not be opened; the driver's message is kept.
    Unreadable(String),
}

/// Every fatal condition of a run.
#[derive(Debug, Clone)]
pub enum Error {
    /// Bootstrap was asked of a cluster that is already initialized.
    AlreadyInitialized,
    /// A control-plane call failed or answered with a malformed body.
    ControlPlane { call: Call, fault: Fault },
    SourceResolution(SourceError),
    MissingInput(Input),
    /// The server did not answer within the allowed number of probes.
    Unreachable { probes: u64 },
    /// The driver reported an outcome that does not answer the pending action.
    OutOfOrder,
}

} // verus!
