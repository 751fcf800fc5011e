//! The request dispatcher: building one logical API call, classifying its
//! response, and performing the one-shot authentication retry.

use vstd::prelude::*;
use vstd::string::StrSliceExecFns;
use vstd::string::StringExecFns;
use crate::classify::{parse_response, ParsedResponse};
use crate::client_trait::{HttpClient, HttpRequestResult, PreparedRequest};
use crate::client_trait_common::{Endpoint, ParamsType, Style, TeamSelect};
use crate::error::{Error, NoError};
use crate::text::{fmt_u64, spec_dec};
use crate::types::auth::AuthError;

verus! {

/// The headers of a prepared request, as specification-level pairs.
pub open spec fn view_headers(h: Seq<(String, String)>) -> Seq<(Seq<char>, Seq<char>)> {
    crate::text::view_pairs(h)
}

/// The value of the `Range` header for an optional start and end offset,
/// when at least one of them is present.
pub open spec fn spec_range_value(range_start: Option<u64>, range_end: Option<u64>) -> Seq<
    char,
> {
    match (range_start, range_end) {
        (Some(s), Some(e)) => "bytes="@ + spec_dec(s as nat) + "-"@ + spec_dec(e as nat),
        (Some(s), None) => "bytes="@ + spec_dec(s as nat) + "-"@,
        (None, Some(e)) => "bytes=-"@ + spec_dec(e as nat),
        (None, None) => Seq::empty(),
    }
}

/// The exact header list of a prepared request, in order: the user agent;
/// the bearer authorization, when a token is given; the path root and team
/// selection context, when given; the byte range, when given; and the
/// parameter headers that the request style calls for.
pub open spec fn spec_header_list(
    style: Style,
    params: Seq<char>,
    params_type: ParamsType,
    range_start: Option<u64>,
    range_end: Option<u64>,
    token: Option<Seq<char>>,
    path_root: Option<Seq<char>>,
    team_select: Option<TeamSelect>,
) -> Seq<(Seq<char>, Seq<char>)> {
    seq![("User-Agent"@, "Dropbox-SDK-Rust"@)] + (match token {
        Some(t) => seq![("Authorization"@, "Bearer "@ + t)],
        None => Seq::empty(),
    }) + (match path_root {
        Some(p) => seq![("Dropbox-API-Path-Root"@, p)],
        None => Seq::empty(),
    }) + (match team_select {
        Some(ts) => seq![(ts.spec_header_name(), ts.spec_id())],
        None => Seq::empty(),
    }) + (if range_start is Some || range_end is Some {
        seq![("Range"@, spec_range_value(range_start, range_end))]
    } else {
        Seq::empty()
    }) + (if params.len() == 0 {
        Seq::empty()
    } else {
        match style {
            Style::Rpc => seq![("Content-Type"@, params_type.spec_content_type())],
            Style::Upload => seq![
                ("Dropbox-API-Arg"@, params),
                ("Content-Type"@, "application/octet-stream"@),
            ],
            Style::Download => seq![("Dropbox-API-Arg"@, params)],
        }
    })
}

/// Whether the parameters travel in the request body rather than a header:
/// they do exactly for a non-empty RPC style request.
pub open spec fn spec_params_in_body(style: Style, params: Seq<char>) -> bool {
    style is Rpc && params.len() != 0
}

/// Build a request for the given endpoint and function with the given
/// parameters, already serialized. Returns the prepared request and, for a
/// request style that sends the parameters in the body, the body to send.
#[allow(unused_parens)]
pub fn prepare_request(
    endpoint: Endpoint,
    style: Style,
    function: &str,
    params: String,
    params_type: ParamsType,
    range_start: Option<u64>,
    range_end: Option<u64>,
    token: &Option<String>,
    path_root: &Option<String>,
    team_select: &Option<TeamSelect>,
) -> (r: (PreparedRequest, Option<String>))
    ensures
        r.0.url@ == endpoint.spec_url() + function@,
        view_headers(r.0.headers@) == spec_header_list(
            style,
            params@,
            params_type,
            range_start,
            range_end,
            match token {
                Some(t) => Some(t@),
                None => None,
            },
            match path_root {
                Some(p) => Some(p@),
                None => None,
            },
            *team_select,
        ),
        if spec_params_in_body(style, params@) {
            r.1 == Some(params)
        } else {
            r.1 is None
        },
{
    let url = endpoint.url().to_owned().concat(function);
    let mut headers: Vec<(String, String)> = Vec::new();
    headers.push(("User-Agent".to_owned(), "Dropbox-SDK-Rust".to_owned()));

    if let Some(t) = token {
        headers.push(("Authorization".to_owned(), "Bearer ".to_owned().concat(t.as_str())));
    }

    if let Some(p) = path_root {
        headers.push(("Dropbox-API-Path-Root".to_owned(), p.clone()));
    }

    if let Some(ts) = team_select {
        headers.push((ts.header_name().to_owned(), ts.id().clone()));
    }

    match (range_start, range_end) {
        (Some(s), Some(e)) => {
            let mut v = "bytes=".to_owned();
            v.append(fmt_u64(s).as_str());
            v.append("-");
            v.append(fmt_u64(e).as_str());
            headers.push(("Range".to_owned(), v));
        },
        (Some(s), None) => {
            let mut v = "bytes=".to_owned();
            v.append(fmt_u64(s).as_str());
            v.append("-");
            headers.push(("Range".to_owned(), v));
        },
        (None, Some(e)) => {
            let mut v = "bytes=-".to_owned();
            v.append(fmt_u64(e).as_str());
            headers.push(("Range".to_owned(), v));
        },
        (None, None) => {},
    }

    let mut params_body: Option<String> = None;
    if !params.as_str().is_empty() {
        match style {
            Style::Rpc => {
                headers.push(("Content-Type".to_owned(), params_type.content_type().to_owned()));
                params_body = Some(params);
            },
            Style::Upload => {
                headers.push(("Dropbox-API-Arg".to_owned(), params));
                headers.push(("Content-Type".to_owned(), "application/octet-stream".to_owned()));
            },
            Style::Download => {
                headers.push(("Dropbox-API-Arg".to_owned(), params));
            },
        }
    }

    proof {
        assert(view_headers(headers@) =~= spec_header_list(
            style,
            params@,
            params_type,
            range_start,
            range_end,
            match token {
                Some(t) => Some(t@),
                None => None,
            },
            match path_root {
                Some(p) => Some(p@),
                None => None,
            },
            *team_select,
        ));
    }
    (PreparedRequest { url, headers }, params_body)
}

/// The outcome of one logical call, once no further attempt will be made.
#[derive(Debug, Clone)]
pub enum CallOutcome {
    /// The server accepted the call.
    Success {
        /// The JSON text of the endpoint's result.
        result_json: String,
        /// The value of the `Content-Length` header, if any.
        content_length: Option<u64>,
    },
    /// The server returned an operation-level failure in the endpoint's
    /// declared error schema.
    ApiFailure {
        /// The JSON text holding the endpoint-specific error.
        json: String,
    },
    /// The call failed for a reason common to all endpoints.
    Failed(Error<NoError>),
}

/// What a call should do next after a response was classified.
#[derive(Debug, Clone)]
pub enum CallStep {
    /// The call is over, with the given outcome.
    Finished(CallOutcome),
    /// The classification was an expired access token on a first attempt:
    /// refresh the token — handing the refresher the stale token this call
    /// observed — and retry exactly once.
    NeedRefresh {
        /// The token the failed attempt was made with, if any.
        observed: Option<String>,
    },
}

/// The state of one logical call: everything needed to build its request,
/// and whether the one-shot authentication retry was already spent.
#[derive(Debug, Clone)]
pub struct CallMachine {
    /// The API base endpoint of the call.
    pub endpoint: Endpoint,
    /// The request style of the call.
    pub style: Style,
    /// The name of the API function, appended to the endpoint's base URL.
    pub function: String,
    /// The serialized parameters of the call.
    pub params: String,
    /// The format of the serialized parameters.
    pub params_type: ParamsType,
    /// Start of the requested byte range, if any.
    pub range_start: Option<u64>,
    /// End of the requested byte range, if any.
    pub range_end: Option<u64>,
    /// The bearer token the next attempt will be made with, if any.
    pub token: Option<String>,
    /// The serialized path root of the call, if any.
    pub path_root: Option<String>,
    /// The team context of the call, if any.
    pub team_select: Option<TeamSelect>,
    /// Whether the one-shot authentication retry was already spent.
    pub retried: bool,
}

impl CallMachine {
    /// The transition on a classified response: an expired-access-token
    /// classification on a call that has not retried yet spends the retry
    /// and asks for a refresh; every other classification finishes the call.
    pub open spec fn spec_on_response(self, classified: ParsedResponse) -> (CallMachine, CallStep) {
        match classified {
            ParsedResponse::Failed(e) => {
                if e.spec_is_expired_token() && !self.retried {
                    (
                        CallMachine { retried: true, ..self },
                        CallStep::NeedRefresh { observed: self.token },
                    )
                } else {
                    (self, CallStep::Finished(CallOutcome::Failed(e)))
                }
            },
            ParsedResponse::Success { result_json, content_length } => (
                self,
                CallStep::Finished(CallOutcome::Success { result_json, content_length }),
            ),
            ParsedResponse::ApiFailureBody { json } => (
                self,
                CallStep::Finished(CallOutcome::ApiFailure { json }),
            ),
        }
    }

    /// The transition on the outcome of a token refresh: a fresh token
    /// replaces the one the retried attempt will use.
    pub open spec fn spec_on_refresh(self, new_token: Option<String>) -> CallMachine {
        match new_token {
            Some(t) => CallMachine { token: Some(t), ..self },
            None => self,
        }
    }

    /// Decide what to do with a classified response.
    pub fn on_response(&mut self, classified: ParsedResponse) -> (r: CallStep)
        ensures
            *final(self) == (*old(self)).spec_on_response(classified).0,
            r == (*old(self)).spec_on_response(classified).1,
    {
        match classified {
            ParsedResponse::Failed(e) => {
                if e.is_expired_token() && !self.retried {
                    self.retried = true;
                    let observed = self.token.clone();
                    CallStep::NeedRefresh { observed }
                } else {
                    CallStep::Finished(CallOutcome::Failed(e))
                }
            },
            ParsedResponse::Success { result_json, content_length } => CallStep::Finished(
                CallOutcome::Success { result_json, content_length },
            ),
            ParsedResponse::ApiFailureBody { json } => CallStep::Finished(
                CallOutcome::ApiFailure { json },
            ),
        }
    }

    /// Take note of a freshly refreshed token for the retried attempt.
    pub fn on_refresh(&mut self, new_token: Option<String>)
        ensures
            *final(self) == (*old(self)).spec_on_refresh(new_token),
    {
        if let Some(t) = new_token {
            self.token = Some(t);
        }
    }

    /// Build the request for the next attempt of this call.
    pub fn build_request(&self) -> (r: (PreparedRequest, Option<String>))
        ensures
            r.0.url@ == self.endpoint.spec_url() + self.function@,
            view_headers(r.0.headers@) == spec_header_list(
                self.style,
                self.params@,
                self.params_type,
                self.range_start,
                self.range_end,
                match self.token {
                    Some(t) => Some(t@),
                    None => None,
                },
                match self.path_root {
                    Some(p) => Some(p@),
                    None => None,
                },
                self.team_select,
            ),
            if spec_params_in_body(self.style, self.params@) {
                r.1 matches Some(p) && p == self.params
            } else {
                r.1 is None
            },
    {
        prepare_request(
            self.endpoint,
            self.style,
            self.function.as_str(),
            self.params.clone(),
            self.params_type,
            self.range_start,
            self.range_end,
            &self.token,
            &self.path_root,
            &self.team_select,
        )
    }
}

/// One expired-access-token classification triggers exactly one retry, made
/// with the freshly refreshed token; a second consecutive such
/// classification surfaces the authentication error and asks for no further
/// refresh or retry.
pub proof fn lemma_expired_token_single_retry(
    m: CallMachine,
    e1: Error<NoError>,
    tok: String,
    e2: Error<NoError>,
)
    requires
        !m.retried,
        e1.spec_is_expired_token(),
        e2.spec_is_expired_token(),
    ensures
        m.spec_on_response(ParsedResponse::Failed(e1)).1 == (CallStep::NeedRefresh {
            observed: m.token,
        }),
        m.spec_on_response(ParsedResponse::Failed(e1)).0.spec_on_refresh(Some(tok)).token == Some(
            tok,
        ),
        m.spec_on_response(ParsedResponse::Failed(e1)).0.spec_on_refresh(
            Some(tok),
        ).spec_on_response(ParsedResponse::Failed(e2)).1 == CallStep::Finished(
            CallOutcome::Failed(e2),
        ),
{
}

/// An endpoint's declared error schema: how the body of an API failure
/// response maps to the endpoint's typed error value.
pub trait ErrorSchema: Sized {
    /// Whether an API failure body denotes the value `e` under the schema.
    spec fn spec_parses_to(body: Seq<char>, e: Self) -> bool;

    /// Whether an API failure body denotes no value under the schema.
    spec fn spec_parse_fails(body: Seq<char>) -> bool;

    /// Parse an API failure body against the schema.
    fn parse_api_error(body: &str) -> (r: Option<Self>)
        ensures
            match r {
                Some(e) => Self::spec_parses_to(body@, e),
                None => Self::spec_parse_fails(body@),
            },
    ;
}

impl ErrorSchema for NoError {
    /// No body denotes a value: this type has no defined error return.
    open spec fn spec_parses_to(body: Seq<char>, e: NoError) -> bool {
        false
    }

    /// Every body fails to parse as this type.
    open spec fn spec_parse_fails(body: Seq<char>) -> bool {
        true
    }

    fn parse_api_error(body: &str) -> (r: Option<NoError>) {
        None
    }
}

/// Map the outcome of a finished call to the result of the logical call,
/// parsing an API failure body against the endpoint's declared error schema.
pub fn finish_call<TError: ErrorSchema>(outcome: CallOutcome) -> (r: Result<
    HttpRequestResult,
    Error<TError>,
>)
    ensures
        (outcome matches CallOutcome::Success { result_json, content_length } ==> (r matches Ok(h)
            && h.result_json == result_json && h.content_length == content_length)),
        (outcome matches CallOutcome::ApiFailure { json } ==> (match r {
            Err(Error::Api(e)) => TError::spec_parses_to(json@, e),
            Err(Error::Json(_)) => TError::spec_parse_fails(json@),
            _ => false,
        })),
        (outcome matches CallOutcome::Failed(e) ==> (r matches Err(e2) && crate::error::spec_typed(
            e,
            e2,
        ))),
{
    match outcome {
        CallOutcome::Success { result_json, content_length } => Ok(
            HttpRequestResult { result_json, content_length },
        ),
        CallOutcome::ApiFailure { json } => match TError::parse_api_error(json.as_str()) {
            Some(e) => Err(Error::Api(e)),
            None => Err(Error::Json("unrecognized API error response".to_owned())),
        },
        CallOutcome::Failed(e) => Err(e.typed()),
    }
}

/// Does the request, with the one-shot authentication retry.
///
/// The exact behavior of each piece of a call is stated on the pieces this
/// function composes: [`CallMachine::build_request`] for what is sent,
/// [`parse_response`] for how a response is classified,
/// [`CallMachine::on_response`] for the retry decision, and [`finish_call`]
/// for the final result. What comes over the wire is up to the client, so
/// success cannot be promised; what is promised of every outcome is that a
/// typed API error value only ever arises from a body that the endpoint's
/// declared error schema accepts.
pub fn request_with_body<TClient: HttpClient, TError: ErrorSchema>(
    client: &TClient,
    endpoint: Endpoint,
    style: Style,
    function: &str,
    params: String,
    body: Option<&Vec<u8>>,
    range_start: Option<u64>,
    range_end: Option<u64>,
) -> (r: Result<HttpRequestResult, Error<TError>>)
    ensures
        r matches Err(Error::Api(e)) ==> (exists|j: Seq<char>|
            #[trigger] TError::spec_parses_to(j, e)),
{
    let mut machine = CallMachine {
        endpoint,
        style,
        function: function.to_owned(),
        params,
        params_type: ParamsType::Json,
        range_start,
        range_end,
        token: client.token(),
        path_root: client.path_root(),
        team_select: client.team_select(),
        retried: false,
    };

    // A client that supports authentication but holds no token yet gets one
    // chance to obtain one before the first attempt; this spends the
    // one-shot retry.
    if machine.token.is_none() {
        match client.update_token(String::new()) {
            Ok(true) => {
                machine.token = client.token();
                machine.retried = true;
            },
            Ok(false) => {},
            Err(e) => {
                return Err(e.typed());
            },
        }
    }

    let step = attempt_call(client, &mut machine, body);
    let outcome = match step {
        CallStep::Finished(outcome) => outcome,
        CallStep::NeedRefresh { observed } => {
            let stale = match observed {
                Some(t) => t,
                None => String::new(),
            };
            match client.update_token(stale) {
                Ok(true) => {
                    machine.on_refresh(client.token());
                    let step2 = attempt_call(client, &mut machine, body);
                    match step2 {
                        CallStep::Finished(outcome) => outcome,
                        // The retry was spent; the machine never asks again.
                        CallStep::NeedRefresh { .. } => CallOutcome::Failed(
                            Error::Authentication(AuthError::ExpiredAccessToken),
                        ),
                    }
                },
                Ok(false) => CallOutcome::Failed(
                    Error::Authentication(AuthError::ExpiredAccessToken),
                ),
                Err(e) => CallOutcome::Failed(e),
            }
        },
    };
    finish_call::<TError>(outcome)
}

/// Make one attempt of the call: build the request, execute it through the
/// client, classify what came back, and decide what to do next. What comes
/// over the wire is up to the client; the pieces composed here each state
/// their exact behavior.
fn attempt_call<TClient: HttpClient>(
    client: &TClient,
    machine: &mut CallMachine,
    body: Option<&Vec<u8>>,
) -> (r: CallStep)
{
    let (req, params_body) = machine.build_request();
    let empty: Vec<u8> = Vec::new();
    let exec_result = match params_body {
        Some(pb) => client.execute(&req, &pb.as_str().as_bytes_vec()),
        None => match body {
            Some(b) => client.execute(&req, b),
            None => client.execute(&req, &empty),
        },
    };
    match exec_result {
        Ok(raw) => machine.on_response(parse_response(raw, machine.style)),
        Err(msg) => CallStep::Finished(CallOutcome::Failed(Error::HttpClient(msg))),
    }
}

/// Does the request and returns the JSON text of the endpoint's result.
///
/// See [`request_with_body`]; this is the same call without a byte range.
pub fn request<TClient: HttpClient, TError: ErrorSchema>(
    client: &TClient,
    endpoint: Endpoint,
    style: Style,
    function: &str,
    params: String,
    body: Option<&Vec<u8>>,
) -> (r: Result<String, Error<TError>>)
    ensures
        r matches Err(Error::Api(e)) ==> (exists|j: Seq<char>|
            #[trigger] TError::spec_parses_to(j, e)),
{
    match request_with_body::<TClient, TError>(
        client,
        endpoint,
        style,
        function,
        params,
        body,
        None,
        None,
    ) {
        Ok(h) => Ok(h.result_json),
        Err(e) => Err(e),
    }
}

} // verus!
