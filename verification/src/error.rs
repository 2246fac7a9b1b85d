//! The error taxonomy shared by every operation.

use vstd::prelude::*;

verus! {

/// A structured error payload returned by the store itself, e.g.
/// key-not-found, node-is-directory, or test-failed for a conditional
/// operation whose conditions did not match.
#[derive(Clone, Debug, PartialEq, Eq)]
pub struct ApiError {
    /// The error code assigned by the store.
    pub error_code: u64,
    /// A human-readable message describing the error.
    pub message: String,
    /// The key or other input that caused the error, when reported.
    pub cause: Option<String>,
    /// The store index at which the error arose, when reported.
    pub index: Option<u64>,
}

/// A failure of the HTTP layer itself (connection refused, DNS, TLS) for one
/// endpoint, as reported by the transport.
#[derive(Clone, Debug, PartialEq, Eq)]
pub struct TransportError {
    /// The transport's description of the failure.
    pub message: String,
}

/// Everything that can go wrong with a single operation.
#[derive(Clone, Debug, PartialEq, Eq)]
pub enum Error {
    /// A conditional operation was requested with both condition fields
    /// absent. Raised before any endpoint is contacted.
    InvalidConditions,
    /// The HTTP layer failed for one endpoint.
    Transport(TransportError),
    /// The response status matched neither a success nor a recognized error
    /// shape for the operation.
    UnexpectedStatus(u16),
    /// The response body decoded as neither the success shape nor the
    /// structured-error shape.
    Serialization,
    /// The store returned a structured error payload.
    Api(ApiError),
}

/// Everything that can go wrong with a watch operation.
#[derive(Clone, Debug, PartialEq, Eq)]
pub enum WatchError {
    /// The configured watch timeout elapsed before the long-poll resolved.
    Timeout,
    /// The underlying long-poll failed; the per-endpoint errors are carried
    /// along unchanged.
    Other(Vec<Error>),
}

} // verus!
