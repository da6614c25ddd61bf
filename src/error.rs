//! The closed set of error kinds and the standard status-code classification.

use vstd::prelude::*;

verus! {

/// `reqwest::Error`, the HTTP client's error: carried through unchanged,
/// nothing is read from it.
#[verifier::external_type_specification]
#[verifier::external_body]
pub struct ExTransportError(reqwest::Error);

/// High-level errors returned by the API helpers.
#[derive(Debug)]
pub enum Auth0Error {
    /// Network, connection or body-decoding failure.
    Transport(reqwest::Error),
    /// 400, or a local precondition failure.
    InvalidRequest(String),
    /// 401: any authentication failure.
    Unauthorized(String),
    /// 403: authenticated but lacking the required scopes.
    Forbidden(String),
    /// 409: the resource conflicts with an existing one.
    Conflict { status: u16, body: String },
    /// 429: rate limited; retrying is left to the caller.
    TooManyRequests(String),
    /// Any other non-success status.
    UnexpectedResponse { status: u16, body: String },
}

pub type Result<T, E = Auth0Error> = core::result::Result<T, E>;

/// What the standard classification yields for a failed exchange with
/// `status` and response text `body`.
pub open spec fn standard_error(status: u16, body: String) -> Auth0Error {
    if status == 400 {
        Auth0Error::InvalidRequest(body)
    } else if status == 401 {
        Auth0Error::Unauthorized(body)
    } else if status == 403 {
        Auth0Error::Forbidden(body)
    } else if status == 409 {
        Auth0Error::Conflict { status, body }
    } else if status == 429 {
        Auth0Error::TooManyRequests(body)
    } else {
        Auth0Error::UnexpectedResponse { status, body }
    }
}

/// `r` is an `InvalidRequest` whose message reads `msg`.
pub open spec fn is_invalid_request<T>(r: Result<T>, msg: Seq<char>) -> bool {
    r matches Err(Auth0Error::InvalidRequest(m)) && m@ == msg
}

impl From<reqwest::Error> for Auth0Error {
    /// A transport failure.
    fn from(e: reqwest::Error) -> (r: Auth0Error)
        ensures
            r == Auth0Error::Transport(e),
    {
        Auth0Error::Transport(e)
    }
}

impl vstd::std_specs::convert::FromSpecImpl<reqwest::Error> for Auth0Error {
    open spec fn obeys_from_spec() -> bool {
        true
    }

    open spec fn from_spec(e: reqwest::Error) -> Auth0Error {
        Auth0Error::Transport(e)
    }
}

impl Auth0Error {
    /// Classifies a non-success response by its exact status code.
    pub fn from_response(status: u16, body: String) -> (r: Auth0Error)
        ensures
            r == standard_error(status, body),
    {
        match status {
            400 => Auth0Error::InvalidRequest(body),
            401 => Auth0Error::Unauthorized(body),
            403 => Auth0Error::Forbidden(body),
            409 => Auth0Error::Conflict { status, body },
            429 => Auth0Error::TooManyRequests(body),
            code => Auth0Error::UnexpectedResponse { status: code, body },
        }
    }
}

} // verus!
