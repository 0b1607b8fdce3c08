//! Typed failures of the client.
use vstd::prelude::*;

verus! {

/// Every way a remote operation can fail, other than a transport-level
/// fault (which never reaches this layer as a response).
///
/// `HttpStatusError` carries the HTTP status code of the offending
/// response.
#[derive(Clone, Copy, Debug, PartialEq, Eq, Structural)]
pub enum PocketcastError {
    /// A discovery feed answered without a `result` payload.
    EmptyResponse,
    /// A response arrived with a status code the operation does not accept.
    HttpStatusError(u16),
    /// The login endpoint rejected the supplied credentials.
    InvalidCredentials,
    /// Login succeeded at the HTTP level but no session value could be
    /// extracted from the response.
    MissingSession,
    /// An authenticated operation was attempted before a successful login.
    NoSession,
    /// A response body did not decode against the expected schema.
    ParseError,
}

} // verus!
