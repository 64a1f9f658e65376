//! The errors that the bridge reports to its caller.

use vstd::prelude::*;

verus! {

/// Why a listener or a connection could not be started.
#[derive(Debug, PartialEq, Eq)]
pub enum StartError {
    /// The engine process could not be created.
    SpawnFailed,
    /// A listener for the port is starting or running already.
    AlreadyRunning,
    /// The engine succeeded but did not print an identifier.
    MalformedEngineOutput,
    /// The engine exited with a failure; what it wrote to standard error.
    EngineExitFailure(String),
}

/// Why a message was not sent.
#[derive(Debug, PartialEq, Eq)]
pub enum SendError {
    /// The identifier is not on record, or its connection is dead.
    UnknownOrDeadConnection,
    /// The engine exited with a failure; what it wrote to standard error.
    EngineRejected(String),
    /// The engine process could not be created.
    SpawnFailed,
}

} // verus!
