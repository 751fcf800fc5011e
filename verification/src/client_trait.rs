//! The capability interface that supplies the HTTP transport.
//!
//! Everything needed to plug an HTTP client implementation into this crate.
//! The crate prepares requests as plain values and classifies plain
//! responses; an implementation of [`HttpClient`] only has to carry them over
//! the wire.

use vstd::prelude::*;
use crate::client_trait_common::TeamSelect;
use crate::error::{Error, NoError};

verus! {

/// A prepared HTTP request: where to POST and which headers to set.
#[derive(Debug, Clone)]
pub struct PreparedRequest {
    /// The URL of the request.
    pub url: String,
    /// Header names and values, in the order they should be set.
    pub headers: Vec<(String, String)>,
}

/// The raw response from the server.
#[derive(Debug, Clone)]
pub struct HttpRequestResultRaw {
    /// HTTP response code.
    pub status: u16,
    /// The value of the `Dropbox-API-Result` header, if present.
    pub result_header: Option<String>,
    /// The value of the `Content-Length` header in the response, if present.
    pub content_length: Option<u64>,
    /// The response body, decoded as text. For content-download requests the
    /// transport keeps the content stream for itself and leaves this empty;
    /// the result of such a request is carried in `result_header`.
    pub body: String,
}

/// The response from the server after classification.
#[derive(Debug, Clone)]
pub struct HttpRequestResult {
    /// The API result: the JSON text of the endpoint's response value.
    pub result_json: String,
    /// The value of the `Content-Length` header in the response, if any.
    pub content_length: Option<u64>,
}

/// The base HTTP client capability.
///
/// An implementation executes one prepared request and reports the status,
/// the result header, and the body as plain values. A transport failure of
/// any kind — connection errors, invalid UTF-8 in a textual body — is
/// reported as an `Err` message. Nothing is promised of an implementation;
/// every caller in this crate states what holds whatever a call returns.
pub trait HttpClient {
    /// Make a HTTP POST request with the given content body.
    fn execute(&self, request: &PreparedRequest, body: &Vec<u8>) -> Result<
        HttpRequestResultRaw,
        String,
    >;

    /// Attempt to update the current authentication token. The previously
    /// fetched token is given as a way to avoid repeat updates in case of a
    /// race. If the update is successful, return `true` and the current
    /// request will be retried with a newly-fetched token. Return `false` if
    /// authentication is not supported, or return an error if the update
    /// operation fails.
    fn update_token(&self, old_token: String) -> Result<bool, Error<NoError>> {
        Ok(false)
    }

    /// The client's current authentication token, if any.
    fn token(&self) -> Option<String> {
        None
    }

    /// The currently set path root, if any, as a serialized path-root value.
    fn path_root(&self) -> Option<String> {
        None
    }

    /// The alternate user or team context currently set, if any.
    fn team_select(&self) -> Option<TeamSelect> {
        None
    }

    /// Wait for the given number of seconds before retrying a rate-limited
    /// request. Timing is owned by the transport; a test stub may record the
    /// wait instead of sleeping.
    fn sleep(&self, seconds: u32) {
    }
}

/// Marker trait to indicate that a HTTP client supports unauthenticated
/// routes.
pub trait NoauthClient: HttpClient {

}

/// Marker trait to indicate that a HTTP client supports User authentication.
/// User authentication works by adding a `Authorization: Bearer <TOKEN>`
/// header.
pub trait UserAuthClient: HttpClient {

}

/// Marker trait to indicate that a HTTP client supports Team authentication.
/// Team authentication works by adding a `Authorization: Bearer <TOKEN>`
/// header, and optionally a `Dropbox-API-Select-Admin` or
/// `Dropbox-API-Select-User` header.
pub trait TeamAuthClient: HttpClient {

}

/// Marker trait to indicate that a HTTP client supports App authentication.
/// App authentication works by adding a
/// `Authorization: Basic <base64(APP_KEY:APP_SECRET)>` header to the HTTP
/// request.
pub trait AppAuthClient: HttpClient {

}

} // verus!
