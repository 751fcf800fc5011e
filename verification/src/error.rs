//! The error type returned by every API call.

use vstd::prelude::*;
use vstd::string::StringExecFns;
use crate::types::auth::{AccessError, AuthError, RateLimitReason};

verus! {

/// An error occurred in the process of making an API call.
/// This is different from the case where your call succeeded, but the
/// operation returned an error.
#[derive(Debug, Clone)]
pub enum Error<E> {
    /// An error returned by the API. Its type depends on the endpoint being
    /// called.
    Api(E),

    /// Some error from the internals of the HTTP client, described by a
    /// message.
    HttpClient(String),

    /// Something went wrong in the process of transforming a value to or from
    /// a JSON string, described by a message.
    Json(String),

    /// The API response was unexpected or malformed in some way.
    UnexpectedResponse(String),

    /// The API indicated that the request was malformed in some way.
    BadRequest(String),

    /// Errors occurred during authentication.
    Authentication(AuthError),

    /// The request was rejected due to rate-limiting. It can be retried
    /// later.
    RateLimited {
        /// The server-given reason for the rate-limiting.
        reason: RateLimitReason,
        /// The request can be retried after this many seconds.
        retry_after_seconds: u32,
    },

    /// The user or team account doesn't have access to the endpoint or
    /// feature.
    AccessDenied(AccessError),

    /// The API server had an internal error.
    ServerError(String),

    /// The API returned an unexpected HTTP response code.
    UnexpectedHttpError {
        /// HTTP status code returned.
        code: u16,
        /// The response body.
        response: String,
    },
}

/// A special error type for a method that doesn't have any defined error
/// return. No function of this crate ever constructs a value of this type;
/// it is here to satisfy type requirements.
#[derive(Debug, Copy, Clone, PartialEq, Eq, Structural)]
pub enum NoError {
    /// Never constructed.
    Never,
}

impl<E> Error<E> {
    /// Whether this error is an expired-access-token authentication error,
    /// the one classification that entitles a call to a single transparent
    /// retry after a token refresh.
    pub open spec fn spec_is_expired_token(&self) -> bool {
        self matches Error::Authentication(AuthError::ExpiredAccessToken)
    }

    /// Whether this error is an expired-access-token authentication error.
    pub fn is_expired_token(&self) -> (r: bool)
        ensures
            r == self.spec_is_expired_token(),
    {
        matches!(self, Error::Authentication(AuthError::ExpiredAccessToken))
    }

    /// The error in words, for reporting: a fixed phrase for the kind of
    /// failure, with the server's words where the variant carries them.
    pub fn summary(&self) -> (r: String)
        ensures
            match self {
                Error::Api(_) => r@ == "API endpoint returned an error"@,
                Error::HttpClient(m) => r@ == "error from HTTP client: "@ + m@,
                Error::Json(m) => r@ == "JSON error: "@ + m@,
                Error::UnexpectedResponse(m) => r@ == "unexpected response: "@ + m@,
                Error::BadRequest(m) => r@ == "the request was malformed: "@ + m@,
                Error::Authentication(_) => r@ == "a problem with authentication"@,
                Error::RateLimited { .. } => r@
                    == "the request was declined due to rate-limiting"@,
                Error::AccessDenied(_) => r@ == "access to the resource was denied"@,
                Error::ServerError(m) => r@ == "internal server error: "@ + m@,
                Error::UnexpectedHttpError { code, response } => r@
                    == "unexpected HTTP error: "@ + response@,
            },
    {
        match self {
            Error::Api(_) => "API endpoint returned an error".to_owned(),
            Error::HttpClient(m) => "error from HTTP client: ".to_owned().concat(m.as_str()),
            Error::Json(m) => "JSON error: ".to_owned().concat(m.as_str()),
            Error::UnexpectedResponse(m) => "unexpected response: ".to_owned().concat(m.as_str()),
            Error::BadRequest(m) => "the request was malformed: ".to_owned().concat(m.as_str()),
            Error::Authentication(_) => "a problem with authentication".to_owned(),
            Error::RateLimited { .. } => "the request was declined due to rate-limiting".to_owned(),
            Error::AccessDenied(_) => "access to the resource was denied".to_owned(),
            Error::ServerError(m) => "internal server error: ".to_owned().concat(m.as_str()),
            Error::UnexpectedHttpError { code: _, response } => "unexpected HTTP error: ".to_owned()
                .concat(response.as_str()),
        }
    }
}

/// The relation between an error without an API error value and the same
/// error lifted to any typed error.
pub open spec fn spec_typed<E>(e: Error<NoError>, r: Error<E>) -> bool {
    match e {
        Error::Api(_) => r matches Error::UnexpectedResponse(_),
        Error::HttpClient(m) => r matches Error::HttpClient(m2) && m2 == m,
        Error::Json(m) => r matches Error::Json(m2) && m2 == m,
        Error::UnexpectedResponse(m) => r matches Error::UnexpectedResponse(m2) && m2 == m,
        Error::BadRequest(m) => r matches Error::BadRequest(m2) && m2 == m,
        Error::Authentication(a) => r matches Error::Authentication(a2) && a2 == a,
        Error::RateLimited { reason, retry_after_seconds } => (r matches Error::RateLimited {
            reason: r2,
            retry_after_seconds: s2,
        } && r2 == reason && s2 == retry_after_seconds),
        Error::AccessDenied(a) => r matches Error::AccessDenied(a2) && a2 == a,
        Error::ServerError(m) => r matches Error::ServerError(m2) && m2 == m,
        Error::UnexpectedHttpError { code, response } => (r matches Error::UnexpectedHttpError {
            code: c2,
            response: m2,
        } && c2 == code && m2 == response),
    }
}

impl Error<NoError> {
    /// Lift an error with no possible API error value to a typed error of
    /// any type. No function of this crate constructs an API error without a
    /// value, so the first arm below is never reached; it is total so that
    /// an unverified client implementation cannot make a verified caller
    /// panic.
    pub fn typed<E>(self) -> (r: Error<E>)
        ensures
            spec_typed(self, r),
    {
        match self {
            Error::Api(_) => Error::UnexpectedResponse(
                "an error with no defined error type carried a value".to_owned(),
            ),
            Error::HttpClient(e) => Error::HttpClient(e),
            Error::Json(e) => Error::Json(e),
            Error::UnexpectedResponse(e) => Error::UnexpectedResponse(e),
            Error::BadRequest(e) => Error::BadRequest(e),
            Error::Authentication(e) => Error::Authentication(e),
            Error::RateLimited { reason, retry_after_seconds } => Error::RateLimited {
                reason,
                retry_after_seconds,
            },
            Error::AccessDenied(e) => Error::AccessDenied(e),
            Error::ServerError(e) => Error::ServerError(e),
            Error::UnexpectedHttpError { code, response } => Error::UnexpectedHttpError {
                code,
                response,
            },
        }
    }
}

} // verus!
