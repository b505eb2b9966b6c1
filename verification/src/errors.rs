//! The error taxonomy of the module's exported operations.

use vstd::prelude::*;

verus! {

/// Failure of a call across the module boundary to the hub.
#[derive(Clone, Copy, Debug, PartialEq, Eq, Structural)]
pub enum BridgeError {
    /// The cross-module call itself failed.
    CallFailed,
    /// The call came back with a response shape this module cannot decode.
    UnexpectedResponse,
}

/// Error of an exported operation.
#[derive(Clone, Copy, Debug, PartialEq, Eq, Structural)]
pub enum PaperzError {
    /// The underlying commit failed; fatal for the triggering call, never
    /// retried here.
    StoreWriteError,
    /// A resolution-by-hash failed; fatal only where exactly one required
    /// record is resolved (enumerations skip the element instead).
    StoreReadError,
    /// The cross-module call failed or returned an unexpected shape.  For
    /// annotation creation this is surfaced even though the local write
    /// already persisted.
    BridgeError(BridgeError),
}

} // verus!
