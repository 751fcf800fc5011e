//! Classification of HTTP responses into success, a typed API failure, or an
//! error.

use vstd::prelude::*;
use crate::client_trait::HttpRequestResultRaw;
use crate::client_trait_common::Style;
use crate::error::{Error, NoError};
use crate::types::auth::{AccessError, AuthError, RateLimitReason};

verus! {

/// The string at `/error/.tag` of a JSON document, if the document parses
/// and carries a string there.
pub uninterp spec fn spec_error_tag(body: Seq<char>) -> Option<Seq<char>>;

/// Relies on `serde_json::from_str` and `serde_json::Value::pointer` /
/// `Value::as_str`: returns the string at `/error/.tag` of the JSON document
/// `body`, or `None` if `body` does not parse as JSON or holds no string
/// there. The result depends on `body` alone.
#[verifier::external_body]
pub(crate) fn parse_error_tag(body: &str) -> (r: Option<String>)
    ensures
        match r {
            Some(t) => spec_error_tag(body@) == Some(t@),
            None => spec_error_tag(body@) is None,
        },
{
    let v: serde_json::Value = match serde_json::from_str(body) {
        Ok(v) => v,
        Err(_) => return None,
    };
    Some(v.pointer("/error/.tag")?.as_str()?.to_owned())
}

/// The rate-limit fields of a JSON document: the string at
/// `/error/reason/.tag` and the unsigned number at `/error/retry_after`,
/// taken as zero when that field is absent.
pub uninterp spec fn spec_rate_limit(body: Seq<char>) -> Option<(Seq<char>, u64)>;

/// Relies on `serde_json::from_str` and `serde_json::Value::pointer` /
/// `Value::as_str` / `Value::as_u64`: returns the string at
/// `/error/reason/.tag` and the unsigned number at `/error/retry_after` (zero
/// when absent) of the JSON document `body`, or `None` if `body` does not
/// parse or the fields have other shapes. The result depends on `body` alone.
#[verifier::external_body]
fn parse_rate_limit(body: &str) -> (r: Option<(String, u64)>)
    ensures
        match r {
            Some(p) => spec_rate_limit(body@) == Some((p.0@, p.1)),
            None => spec_rate_limit(body@) is None,
        },
{
    let v: serde_json::Value = match serde_json::from_str(body) {
        Ok(v) => v,
        Err(_) => return None,
    };
    let tag = v.pointer("/error/reason/.tag")?.as_str()?.to_owned();
    let secs = match v.pointer("/error/retry_after") {
        Some(x) => x.as_u64()?,
        None => 0,
    };
    Some((tag, secs))
}

/// A response, classified.
#[derive(Debug, Clone)]
pub enum ParsedResponse {
    /// The call succeeded in communicating and the server accepted it; the
    /// JSON text of the endpoint's result value.
    Success {
        /// The JSON text of the endpoint's result.
        result_json: String,
        /// The value of the `Content-Length` header, if any.
        content_length: Option<u64>,
    },
    /// The call succeeded in communicating but the server returned an
    /// operation-level failure in the endpoint's declared error schema; the
    /// body holding it.
    ApiFailureBody {
        /// The JSON text holding the endpoint-specific error.
        json: String,
    },
    /// The call failed to communicate, or the server rejected it for a
    /// reason common to all endpoints.
    Failed(Error<NoError>),
}

/// Classify a raw HTTP response.
///
/// A 2xx response carries the endpoint's result in the body for RPC and
/// upload style calls, and in the result header for download style calls. A
/// 409 response carries an endpoint-specific failure, which the dispatcher
/// parses against the endpoint's declared error schema. Every other status
/// maps to one common error, with auth payloads parsed from the body; a body
/// that fails to parse downgrades to a JSON error rather than panicking.
pub fn parse_response(raw: HttpRequestResultRaw, style: Style) -> (r: ParsedResponse)
    ensures
        (200 <= raw.status < 300 && (style is Rpc || style is Upload)) ==> (match raw.result_header {
            Some(_) => r matches ParsedResponse::Failed(Error::UnexpectedResponse(_)),
            None => (r matches ParsedResponse::Success { result_json, content_length }
                && result_json == raw.body && content_length == raw.content_length),
        }),
        (200 <= raw.status < 300 && style is Download) ==> (match raw.result_header {
            Some(h) => (r matches ParsedResponse::Success { result_json, content_length }
                && result_json == h && content_length == raw.content_length),
            None => r matches ParsedResponse::Failed(Error::UnexpectedResponse(_)),
        }),
        raw.status == 400 ==> (r matches ParsedResponse::Failed(Error::BadRequest(m)) && m
            == raw.body),
        raw.status == 401 ==> (match spec_error_tag(raw.body@) {
            Some(tag) => (r matches ParsedResponse::Failed(Error::Authentication(a)) && a
                == AuthError::spec_from_tag(tag)),
            None => r matches ParsedResponse::Failed(Error::Json(_)),
        }),
        raw.status == 403 ==> (match spec_error_tag(raw.body@) {
            Some(tag) => (r matches ParsedResponse::Failed(Error::AccessDenied(a)) && a
                == AccessError::spec_from_tag(tag)),
            None => r matches ParsedResponse::Failed(Error::Json(_)),
        }),
        raw.status == 409 ==> (r matches ParsedResponse::ApiFailureBody { json } && json
            == raw.body),
        raw.status == 429 ==> (match spec_rate_limit(raw.body@) {
            Some(p) => {
                if p.1 <= u32::MAX {
                    (r matches ParsedResponse::Failed(
                        Error::RateLimited { reason, retry_after_seconds },
                    ) && reason == RateLimitReason::spec_from_tag(p.0) && retry_after_seconds
                        == p.1)
                } else {
                    r matches ParsedResponse::Failed(Error::Json(_))
                }
            },
            None => r matches ParsedResponse::Failed(Error::Json(_)),
        }),
        (500 <= raw.status < 600) ==> (r matches ParsedResponse::Failed(Error::ServerError(m))
            && m == raw.body),
        !(200 <= raw.status < 300) && !(500 <= raw.status < 600) && raw.status != 400
            && raw.status != 401 && raw.status != 403 && raw.status != 409 && raw.status != 429
            ==> (r matches ParsedResponse::Failed(
            Error::UnexpectedHttpError { code, response },
        ) && code == raw.status && response == raw.body),
{
    let HttpRequestResultRaw { status, result_header, content_length, body } = raw;
    if 200 <= status && status < 300 {
        match style {
            Style::Rpc | Style::Upload => match result_header {
                Some(_) => ParsedResponse::Failed(
                    Error::UnexpectedResponse(
                        "unexpected response in header, expected it in the body".to_owned(),
                    ),
                ),
                None => ParsedResponse::Success { result_json: body, content_length },
            },
            Style::Download => match result_header {
                Some(h) => ParsedResponse::Success { result_json: h, content_length },
                None => ParsedResponse::Failed(
                    Error::UnexpectedResponse("expected a Dropbox-API-Result header".to_owned()),
                ),
            },
        }
    } else if status == 400 {
        ParsedResponse::Failed(Error::BadRequest(body))
    } else if status == 401 {
        match parse_error_tag(body.as_str()) {
            Some(tag) => ParsedResponse::Failed(
                Error::Authentication(AuthError::from_tag(tag.as_str())),
            ),
            None => ParsedResponse::Failed(
                Error::Json("invalid authentication error response".to_owned()),
            ),
        }
    } else if status == 403 {
        match parse_error_tag(body.as_str()) {
            Some(tag) => ParsedResponse::Failed(
                Error::AccessDenied(AccessError::from_tag(tag.as_str())),
            ),
            None => ParsedResponse::Failed(Error::Json("invalid access error response".to_owned())),
        }
    } else if status == 409 {
        ParsedResponse::ApiFailureBody { json: body }
    } else if status == 429 {
        match parse_rate_limit(body.as_str()) {
            Some((tag, secs)) => {
                if secs <= u32::MAX as u64 {
                    ParsedResponse::Failed(
                        Error::RateLimited {
                            reason: RateLimitReason::from_tag(tag.as_str()),
                            retry_after_seconds: secs as u32,
                        },
                    )
                } else {
                    ParsedResponse::Failed(
                        Error::Json("rate limit delay out of range".to_owned()),
                    )
                }
            },
            None => ParsedResponse::Failed(Error::Json("invalid rate limit response".to_owned())),
        }
    } else if 500 <= status && status < 600 {
        ParsedResponse::Failed(Error::ServerError(body))
    } else {
        ParsedResponse::Failed(Error::UnexpectedHttpError { code: status, response: body })
    }
}

} // verus!
