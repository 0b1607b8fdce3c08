//! Plain-value descriptions of the HTTP requests the client issues,
//! and the status-code classification every response goes through.
//!
//! The transport that actually sends a request is an external
//! collaborator: it receives one of these descriptions, performs the
//! round trip, and hands back the status code and the decoded body.
use vstd::prelude::*;
use vstd::string::StringExecFns;
use crate::error::PocketcastError;

verus! {

/// Whether a status code counts as success: the 2xx range.
pub open spec fn spec_is_success(status: u16) -> bool {
    200 <= status < 300
}

/// Exec mirror of [`spec_is_success`].
pub fn is_success_status(status: u16) -> (r: bool)
    ensures
        r == spec_is_success(status),
{
    200 <= status && status < 300
}

/// The Authorization header value carrying a bearer token.
pub open spec fn spec_bearer(token: Seq<char>) -> Seq<char> {
    "Bearer "@ + token
}

/// Builds the `Authorization` header value for a token.
pub fn bearer(token: &str) -> (r: String)
    ensures
        r@ == spec_bearer(token@),
{
    let mut r = String::from_str("Bearer ");
    r.append(token);
    r
}

/// The Cookie header value carrying the legacy session cookie.
pub open spec fn spec_session_cookie_header(session: Seq<char>) -> Seq<char> {
    "_social_session="@ + session
}

/// Builds the `Cookie` header value for a legacy session.
pub fn session_cookie_header(session: &str) -> (r: String)
    ensures
        r@ == spec_session_cookie_header(session@),
{
    let mut r = String::from_str("_social_session=");
    r.append(session);
    r
}

#[derive(Clone, Copy, Debug, PartialEq, Eq, Structural)]
pub enum HttpMethod {
    Get,
    Post,
}

/// Everything the transport needs to know to issue one request, save
/// for the operation-specific body, which each operation hands over as
/// its own typed record.
#[derive(Clone, Debug, PartialEq)]
pub struct RequestPlan {
    pub method: HttpMethod,
    pub url: String,
    /// Full value of the `Authorization` header, for token-authenticated
    /// requests.
    pub authorization: Option<String>,
    /// Full value of the `Cookie` header, for cookie-session requests.
    pub cookie: Option<String>,
    /// Whether the transport may follow redirects. The legacy sign-in
    /// needs the `302` itself, so its request turns this off.
    pub follow_redirects: bool,
}

/// The abstract value of an operation's outcome: the payload list as a
/// sequence, or the typed failure.
pub open spec fn list_result_view<T>(r: Result<Vec<T>, PocketcastError>) -> Result<
    Seq<T>,
    PocketcastError,
> {
    match r {
        Ok(v) => Ok(v@),
        Err(e) => Err(e),
    }
}

} // verus!
