//! Helpers for requesting OAuth2 tokens.
//!
//! OAuth2 has a few possible ways to authenticate, and the right choice
//! depends on how your app operates and is deployed.

use vstd::prelude::*;
use vstd::string::StrSliceExecFns;
use vstd::string::StringExecFns;
use crate::classify::{parse_response, ParsedResponse};
use crate::client_helpers::prepare_request;
use crate::client_trait::HttpClient;
use crate::client_trait_common::{Endpoint, ParamsType, Style};
use crate::error::{Error, NoError};
use crate::text::view_pairs;

verus! {

/// Bytes drawn from the platform's secure random source: nothing is promised
/// of their values, only how many there are.
///
/// Relies on `ring::rand::SystemRandom::fill`. Aborts if the platform's
/// entropy source fails, as no flow built on random codes can proceed
/// without randomness.
#[verifier::external_body]
fn fill_random(len: usize) -> (r: Vec<u8>)
    ensures
        r@.len() == len,
{
    let mut bytes = vec![0u8; len];
    ring::rand::SecureRandom::fill(&ring::rand::SystemRandom::new(), &mut bytes).expect(
        "failed to get random bytes",
    );
    bytes
}

/// Whether a character belongs to the URL-safe base64 alphabet.
pub open spec fn spec_b64url_char(c: char) -> bool {
    ('A' <= c && c <= 'Z') || ('a' <= c && c <= 'z') || ('0' <= c && c <= '9') || c == '-' || c
        == '_'
}

/// The URL-safe base64 encoding, with padding, of a byte sequence.
pub uninterp spec fn spec_b64url(b: Seq<u8>) -> Seq<char>;

/// Relies on the `base64` crate's `URL_SAFE` engine: encodes bytes in the
/// URL-safe base64 alphabet with padding. The documentation promises four
/// output characters for every three input bytes, rounded up; every output
/// character is in the alphabet or is the `=` pad, and an input of a whole
/// number of three-byte groups needs no padding.
#[verifier::external_body]
fn b64url(b: &Vec<u8>) -> (r: String)
    ensures
        r@ == spec_b64url(b@),
        r@.len() == ((b@.len() + 2) / 3) * 4,
        forall|i: int| 0 <= i < r@.len() ==> spec_b64url_char(#[trigger] r@[i]) || r@[i] == '=',
        b@.len() % 3 == 0 ==> forall|i: int|
            0 <= i < r@.len() ==> spec_b64url_char(#[trigger] r@[i]),
{
    base64::Engine::encode(&base64::engine::general_purpose::URL_SAFE, b)
}

/// The URL-safe base64 encoding, without padding, of the SHA-256 digest of
/// the UTF-8 encoding of a character sequence.
pub uninterp spec fn spec_s256(s: Seq<char>) -> Seq<char>;

/// Relies on `ring::digest::digest` with SHA-256 and the `base64` crate's
/// `URL_SAFE_NO_PAD` engine: the digest depends on the input alone and is 32
/// bytes long, so its unpadded encoding is exactly 43 characters of the
/// URL-safe alphabet.
#[verifier::external_body]
fn s256_digest(s: &str) -> (r: String)
    ensures
        r@ == spec_s256(s@),
        r@.len() == 43,
        forall|i: int| 0 <= i < r@.len() ==> spec_b64url_char(#[trigger] r@[i]),
{
    let digest = ring::digest::digest(&ring::digest::SHA256, s.as_bytes());
    base64::Engine::encode(&base64::engine::general_purpose::URL_SAFE_NO_PAD, digest.as_ref())
}

/// The percent-encoding of a string for `application/x-www-form-urlencoded`
/// content.
pub uninterp spec fn spec_form_urlencode(s: Seq<char>) -> Seq<char>;

/// Relies on `url::form_urlencoded::byte_serialize`: percent-encodes the
/// UTF-8 encoding of the input for use in a form-urlencoded key or value.
/// The result depends on the input alone.
#[verifier::external_body]
fn form_urlencode(s: &str) -> (r: String)
    ensures
        r@ == spec_form_urlencode(s@),
{
    url::form_urlencoded::byte_serialize(s.as_bytes()).collect()
}

/// The access and refresh tokens of a token-exchange response: the string at
/// `/access_token`, and the string at `/refresh_token` when that field is
/// present. `None` when the body is not a JSON object carrying them in that
/// shape.
pub uninterp spec fn spec_token_response(body: Seq<char>) -> Option<(Seq<char>, Option<Seq<char>>)>;

/// Relies on `serde_json::from_str` and `serde_json::Value::pointer` /
/// `Value::as_str`: extracts the access token, and the refresh token if one
/// was granted, from a token-exchange response. The result depends on the
/// body alone.
#[verifier::external_body]
fn parse_token_response(body: &str) -> (r: Option<(String, Option<String>)>)
    ensures
        match r {
            Some(p) => {
                match p.1 {
                    Some(rt) => spec_token_response(body@) == Some((p.0@, Some(rt@))),
                    None => spec_token_response(body@) == Some((p.0@, Option::<Seq<char>>::None)),
                }
            },
            None => spec_token_response(body@) is None,
        },
{
    let v: serde_json::Value = match serde_json::from_str(body) {
        Ok(v) => v,
        Err(_) => return None,
    };
    let access = v.pointer("/access_token")?.as_str()?.to_owned();
    let refresh = match v.pointer("/refresh_token") {
        Some(x) => Some(x.as_str()?.to_owned()),
        None => None,
    };
    Some((access, refresh))
}

/// Which type of OAuth2 flow to use.
#[derive(Debug, Clone)]
pub enum Oauth2Type {
    /// The Authorization Code flow yields a temporary authorization code
    /// which must be turned into an OAuth2 token by making another call.
    AuthorizationCode {
        /// Client secret
        client_secret: String,
    },
    /// The PKCE flow is an extension of the Authorization Code flow which
    /// uses dynamically generated codes instead of an app secret to perform
    /// the OAuth exchange.
    PKCE(PkceCode),
    /// In Implicit Grant flow, the authorization page directly includes an
    /// OAuth2 token when it redirects the user's web browser back to your
    /// program. This flow is considered legacy and is not as secure as the
    /// other flows.
    ImplicitGrant,
}

impl Oauth2Type {
    /// The value to put in the `response_type` parameter, as a
    /// specification-level sequence.
    pub open spec fn spec_response_type(&self) -> Seq<char> {
        match self {
            Oauth2Type::AuthorizationCode { .. } | Oauth2Type::PKCE(..) => "code"@,
            Oauth2Type::ImplicitGrant => "token"@,
        }
    }

    /// The value to put in the `response_type` parameter to request the
    /// given token type.
    pub fn response_type_str(&self) -> (r: &'static str)
        ensures
            r@ == self.spec_response_type(),
    {
        match self {
            Oauth2Type::AuthorizationCode { .. } | Oauth2Type::PKCE(..) => "code",
            Oauth2Type::ImplicitGrant => "token",
        }
    }
}

/// What type of access token is requested? If unsure, ShortLivedAndRefresh
/// is probably what you want.
#[derive(Debug, Copy, Clone)]
pub enum TokenType {
    /// Return a short-lived bearer token and a long-lived refresh token that
    /// can be used to generate new bearer tokens in the future (as long as a
    /// user's approval remains valid).
    ShortLivedAndRefresh,
    /// Return just the short-lived bearer token, without refresh token. The
    /// app will have to start the authorization flow again to obtain a new
    /// token.
    ShortLived,
    /// Return a long-lived bearer token. The app must be allowed to do this
    /// in the app console. This capability is being sunset.
    LongLived,
}

impl TokenType {
    /// The value to put in the `token_access_type` parameter; when `None`,
    /// the parameter is omitted entirely.
    pub open spec fn spec_token_access_type(self) -> Option<Seq<char>> {
        match self {
            TokenType::ShortLivedAndRefresh => Some("offline"@),
            TokenType::ShortLived => Some("online"@),
            TokenType::LongLived => None,
        }
    }

    /// The value to put in the `token_access_type` parameter. If `None`, the
    /// parameter is omitted entirely.
    pub fn token_access_type_str(self) -> (r: Option<&'static str>)
        ensures
            match r {
                Some(s) => self.spec_token_access_type() == Some(s@),
                None => self.spec_token_access_type() is None,
            },
    {
        match self {
            TokenType::ShortLivedAndRefresh => Some("offline"),
            TokenType::ShortLived => Some("online"),
            TokenType::LongLived => None,
        }
    }
}

/// A proof key for OAuth2 PKCE ("Proof Key for Code Exchange") flow.
#[derive(Debug, Clone)]
pub struct PkceCode {
    code: String,
}

impl PkceCode {
    /// The code string.
    pub closed spec fn spec_code(&self) -> Seq<char> {
        self.code@
    }

    /// Generate a new random code string: the URL-safe base64 encoding of 93
    /// random bytes — 124 characters, each in the URL-safe alphabet, within
    /// the verifier alphabet and the length bounds the protocol allows.
    pub fn new() -> (r: PkceCode)
        ensures
            r.spec_code().len() == 124,
            forall|i: int| 0 <= i < r.spec_code().len() ==> spec_b64url_char(#[trigger] r.spec_code()[i]),
    {
        let bytes = fill_random(93);
        let code = b64url(&bytes);
        PkceCode { code }
    }

    /// Make a proof key from a given code string, for resuming a flow whose
    /// code was saved.
    pub fn from_code(code: String) -> (r: PkceCode)
        ensures
            r.spec_code() == code@,
    {
        PkceCode { code }
    }

    /// Get the SHA-256 hash of the code as a base64-encoded string: exactly
    /// 43 characters of the URL-safe alphabet, and equal codes give equal
    /// results.
    pub fn s256(&self) -> (r: String)
        ensures
            r@ == spec_s256(self.spec_code()),
            r@.len() == 43,
            forall|i: int| 0 <= i < r@.len() ==> spec_b64url_char(#[trigger] r@[i]),
    {
        s256_digest(self.code.as_str())
    }
}

/// Builds a URL that can be given to the user to visit to have the service
/// authorize your app.
///
/// If this app is a server-side app, you should redirect the user's browser
/// to this URL to begin the authorization, and set the redirect_uri to bring
/// the user back to your site when done.
///
/// If this app is a client-side app, you should open a web browser with this
/// URL to begin the authorization, and set the redirect_uri to bring the
/// user back to your app.
///
/// As a special case, if your app is a command-line application, you can
/// skip setting the redirect_uri and print this URL and instruct the user to
/// open it in a browser. When they complete the authorization, they will be
/// given an auth code to input back into your app.
///
/// The query of the URL is exactly the pair list of
/// [`query_pairs`](AuthorizeUrlBuilder::query_pairs).
#[derive(Debug)]
pub struct AuthorizeUrlBuilder<'a> {
    /// The client ID the URL is built for.
    pub client_id: &'a str,
    /// The flow the URL is built for.
    pub flow_type: &'a Oauth2Type,
    /// The requested token type.
    pub token_type: TokenType,
    /// Whether the user must approve the request again.
    pub force_reapprove: bool,
    /// Whether the user must re-login when approving the request.
    pub force_reauthentication: bool,
    /// Whether new user signups are disallowed while approving the request.
    pub disable_signup: bool,
    /// The redirect URI, if set.
    pub redirect_uri: Option<&'a str>,
    /// The CSRF-protection state, if set.
    pub state: Option<&'a str>,
    /// The required account role, if set.
    pub require_role: Option<&'a str>,
    /// The forced locale, if set.
    pub locale: Option<&'a str>,
    /// The requested scope, if set.
    pub scope: Option<&'a str>,
}

/// An optional query parameter: present exactly when a value was set.
pub open spec fn spec_opt_param(name: Seq<char>, v: Option<&str>) -> Seq<(Seq<char>, Seq<char>)> {
    match v {
        Some(s) => seq![(name, s@)],
        None => Seq::empty(),
    }
}

/// A boolean query parameter: `true` when set, absent when not.
pub open spec fn spec_flag_param(name: Seq<char>, v: bool) -> Seq<(Seq<char>, Seq<char>)> {
    if v {
        seq![(name, "true"@)]
    } else {
        Seq::empty()
    }
}

/// The query pairs of the authorization URL, in order: the response type
/// and client id; the token access type unless the flow omits it; the three
/// flags when set; the optional parameters when set; and, for a PKCE flow,
/// the code challenge and its method.
pub open spec fn spec_authorize_query(b: AuthorizeUrlBuilder<'_>) -> Seq<(Seq<char>, Seq<char>)> {
    seq![("response_type"@, b.flow_type.spec_response_type())] + seq![
        ("client_id"@, b.client_id@),
    ] + (match b.token_type.spec_token_access_type() {
        Some(v) => seq![("token_access_type"@, v)],
        None => Seq::empty(),
    }) + spec_flag_param("force_reapprove"@, b.force_reapprove) + spec_flag_param(
        "force_reauthentication"@,
        b.force_reauthentication,
    ) + spec_flag_param("disable_signup"@, b.disable_signup) + spec_opt_param(
        "redirect_uri"@,
        b.redirect_uri,
    ) + spec_opt_param("state"@, b.state) + spec_opt_param(
        "require_role"@,
        b.require_role,
    ) + spec_opt_param("locale"@, b.locale) + spec_opt_param("scope"@, b.scope) + (
    match *b.flow_type {
        Oauth2Type::PKCE(pkce) => seq![
            ("code_challenge"@, spec_s256(pkce.spec_code())),
            ("code_challenge_method"@, "S256"@),
        ],
        _ => Seq::empty(),
    })
}

impl<'a> AuthorizeUrlBuilder<'a> {
    /// Return a new builder for the given client ID and auth flow type, with
    /// all fields set to defaults.
    pub fn new(client_id: &'a str, flow_type: &'a Oauth2Type) -> (r: AuthorizeUrlBuilder<'a>)
        ensures
            r == (AuthorizeUrlBuilder {
                client_id,
                flow_type,
                token_type: TokenType::ShortLivedAndRefresh,
                force_reapprove: false,
                force_reauthentication: false,
                disable_signup: false,
                redirect_uri: None,
                state: None,
                require_role: None,
                locale: None,
                scope: None,
            }),
    {
        AuthorizeUrlBuilder {
            client_id,
            flow_type,
            token_type: TokenType::ShortLivedAndRefresh,
            force_reapprove: false,
            force_reauthentication: false,
            disable_signup: false,
            redirect_uri: None,
            state: None,
            require_role: None,
            locale: None,
            scope: None,
        }
    }

    /// Set whether the user should be prompted to approve the request
    /// regardless of whether they have approved it before.
    pub fn force_reapprove(self, value: bool) -> (r: AuthorizeUrlBuilder<'a>)
        ensures
            r == (AuthorizeUrlBuilder { force_reapprove: value, ..self }),
    {
        AuthorizeUrlBuilder { force_reapprove: value, ..self }
    }

    /// Set whether the user should have to re-login when approving the
    /// request.
    pub fn force_reauthentication(self, value: bool) -> (r: AuthorizeUrlBuilder<'a>)
        ensures
            r == (AuthorizeUrlBuilder { force_reauthentication: value, ..self }),
    {
        AuthorizeUrlBuilder { force_reauthentication: value, ..self }
    }

    /// Set whether new user signups should be allowed or not while approving
    /// the request.
    pub fn disable_signup(self, value: bool) -> (r: AuthorizeUrlBuilder<'a>)
        ensures
            r == (AuthorizeUrlBuilder { disable_signup: value, ..self }),
    {
        AuthorizeUrlBuilder { disable_signup: value, ..self }
    }

    /// Set the URI the approve request should redirect the user to when
    /// completed. If no redirect URI is specified, the user will be shown
    /// the code directly and will have to manually input it into your app.
    pub fn redirect_uri(self, value: &'a str) -> (r: AuthorizeUrlBuilder<'a>)
        ensures
            r == (AuthorizeUrlBuilder { redirect_uri: Some(value), ..self }),
    {
        AuthorizeUrlBuilder { redirect_uri: Some(value), ..self }
    }

    /// Up to 500 bytes of arbitrary data that will be passed back to your
    /// redirect URI. This parameter should be used to protect against
    /// cross-site request forgery (CSRF).
    pub fn state(self, value: &'a str) -> (r: AuthorizeUrlBuilder<'a>)
        ensures
            r == (AuthorizeUrlBuilder { state: Some(value), ..self }),
    {
        AuthorizeUrlBuilder { state: Some(value), ..self }
    }

    /// If this parameter is specified, the user will be asked to authorize
    /// with a particular type of account, either `work` for a team account
    /// or `personal` for a personal account. Your app should still verify
    /// the type of account after authorization since the user could modify
    /// or remove the require_role parameter.
    pub fn require_role(self, value: &'a str) -> (r: AuthorizeUrlBuilder<'a>)
        ensures
            r == (AuthorizeUrlBuilder { require_role: Some(value), ..self }),
    {
        AuthorizeUrlBuilder { require_role: Some(value), ..self }
    }

    /// Force a specific locale when prompting the user, instead of the
    /// locale indicated by their browser.
    pub fn locale(self, value: &'a str) -> (r: AuthorizeUrlBuilder<'a>)
        ensures
            r == (AuthorizeUrlBuilder { locale: Some(value), ..self }),
    {
        AuthorizeUrlBuilder { locale: Some(value), ..self }
    }

    /// What type of token should be requested. Defaults to
    /// [`TokenType::ShortLivedAndRefresh`].
    pub fn token_type(self, value: TokenType) -> (r: AuthorizeUrlBuilder<'a>)
        ensures
            r == (AuthorizeUrlBuilder { token_type: value, ..self }),
    {
        AuthorizeUrlBuilder { token_type: value, ..self }
    }

    /// This parameter allows your user to authorize a subset of the scopes
    /// selected in the app console. Multiple scopes are separated by a
    /// space. If this parameter is omitted, the authorization page will
    /// request all scopes selected on the Permissions tab.
    pub fn scope(self, value: &'a str) -> (r: AuthorizeUrlBuilder<'a>)
        ensures
            r == (AuthorizeUrlBuilder { scope: Some(value), ..self }),
    {
        AuthorizeUrlBuilder { scope: Some(value), ..self }
    }

    /// The query pairs of the authorization URL, exactly as
    /// [`spec_authorize_query`] lists them. Appending them to the
    /// authorization page's base URL builds the URL to send the user to.
    pub fn query_pairs(&self) -> (r: Vec<(String, String)>)
        ensures
            view_pairs(r@) == spec_authorize_query(*self),
    {
        let mut pairs: Vec<(String, String)> = Vec::new();
        proof {
            assert(view_pairs(pairs@) =~= Seq::empty());
        }
        push_param(&mut pairs, "response_type", self.flow_type.response_type_str().to_owned());
        push_param(&mut pairs, "client_id", self.client_id.to_owned());
        push_opt_owned(
            &mut pairs,
            "token_access_type",
            self.token_type.token_access_type_str(),
        );
        push_flag(&mut pairs, "force_reapprove", self.force_reapprove);
        push_flag(&mut pairs, "force_reauthentication", self.force_reauthentication);
        push_flag(&mut pairs, "disable_signup", self.disable_signup);
        push_opt(&mut pairs, "redirect_uri", self.redirect_uri);
        push_opt(&mut pairs, "state", self.state);
        push_opt(&mut pairs, "require_role", self.require_role);
        push_opt(&mut pairs, "locale", self.locale);
        push_opt(&mut pairs, "scope", self.scope);
        push_challenge(&mut pairs, self.flow_type);
        proof {
            assert(view_pairs(pairs@) =~= spec_authorize_query(*self));
        }
        pairs
    }
}

/// Append one query parameter.
fn push_param(pairs: &mut Vec<(String, String)>, name: &str, value: String)
    ensures
        view_pairs(final(pairs)@) == view_pairs(old(pairs)@) + seq![(name@, value@)],
{
    pairs.push((name.to_owned(), value));
    proof {
        assert(view_pairs(pairs@) =~= view_pairs(old(pairs)@) + seq![(name@, pairs@.last().1@)]);
    }
}

/// Append one optional query parameter, exactly when it is set.
fn push_opt(pairs: &mut Vec<(String, String)>, name: &str, value: Option<&str>)
    ensures
        view_pairs(final(pairs)@) == view_pairs(old(pairs)@) + spec_opt_param(name@, value),
{
    match value {
        Some(v) => {
            push_param(pairs, name, v.to_owned());
        },
        None => {
            proof {
                assert(view_pairs(pairs@) =~= view_pairs(pairs@) + Seq::empty());
            }
        },
    }
}

/// Append one optional query parameter given by value, exactly when it is
/// set.
fn push_opt_owned(pairs: &mut Vec<(String, String)>, name: &str, value: Option<&'static str>)
    ensures
        view_pairs(final(pairs)@) == view_pairs(old(pairs)@) + (match value {
            Some(v) => seq![(name@, v@)],
            None => Seq::empty(),
        }),
{
    match value {
        Some(v) => {
            push_param(pairs, name, v.to_owned());
        },
        None => {
            proof {
                assert(view_pairs(pairs@) =~= view_pairs(pairs@) + Seq::empty());
            }
        },
    }
}

/// Append one boolean query parameter, `true` exactly when it is set.
fn push_flag(pairs: &mut Vec<(String, String)>, name: &str, value: bool)
    ensures
        view_pairs(final(pairs)@) == view_pairs(old(pairs)@) + spec_flag_param(name@, value),
{
    if value {
        push_param(pairs, name, "true".to_owned());
    } else {
        proof {
            assert(view_pairs(pairs@) =~= view_pairs(pairs@) + Seq::empty());
        }
    }
}

/// Append the PKCE code challenge parameters, exactly when the flow is a
/// PKCE flow.
fn push_challenge(pairs: &mut Vec<(String, String)>, flow: &Oauth2Type)
    ensures
        view_pairs(final(pairs)@) == view_pairs(old(pairs)@) + (match *flow {
            Oauth2Type::PKCE(pkce) => seq![
                ("code_challenge"@, spec_s256(pkce.spec_code())),
                ("code_challenge_method"@, "S256"@),
            ],
            _ => Seq::empty(),
        }),
{
    match flow {
        Oauth2Type::PKCE(pkce) => {
            push_param(pairs, "code_challenge", pkce.s256());
            push_param(pairs, "code_challenge_method", "S256".to_owned());
            proof {
                assert(view_pairs(pairs@) =~= view_pairs(old(pairs)@) + seq![
                    ("code_challenge"@, spec_s256(pkce.spec_code())),
                    ("code_challenge_method"@, "S256"@),
                ]);
            }
        },
        _ => {
            proof {
                assert(view_pairs(pairs@) =~= view_pairs(pairs@) + Seq::empty());
            }
        },
    }
}

/// [`Authorization`] is a state machine.
///
/// Every flow starts with the `InitialAuth` state, which is just after the
/// user authorizes the app and gets redirected back. It then proceeds to
/// either the `Refresh` or `AccessToken` state depending on whether a
/// long-lived token was requested.
///
/// `Refresh` holds the refresh token necessary to obtain updated short-lived
/// access tokens.
///
/// `AccessToken` holds just the access token itself. Such a state is
/// terminal: the token is either long-lived and not expected to expire, or
/// short-lived and, once expired, only a fresh authorization flow can
/// replace it.
#[derive(Debug, Clone)]
pub enum AuthorizationState {
    /// Just after the user authorized the app: holds what the token
    /// exchange needs.
    InitialAuth {
        /// The flow the authorization was made with.
        flow_type: Oauth2Type,
        /// The authorization code handed back by the authorization page.
        auth_code: String,
        /// The redirect URI of the original authorization request, if any.
        redirect_uri: Option<String>,
    },
    /// A refresh token that can be exchanged for short-lived access tokens.
    Refresh {
        /// The refresh token.
        refresh_token: String,
    },
    /// A bearer token that cannot be refreshed.
    AccessToken {
        /// The client secret the token was obtained with, if any.
        client_secret: Option<String>,
        /// The access token.
        token: String,
    },
}

/// Provides for continuing authorization of the app.
#[derive(Debug, Clone)]
pub struct Authorization {
    client_id: String,
    state: AuthorizationState,
}

/// What the next step of obtaining an access token is: either a token is at
/// hand, or the token endpoint must be called with the given form
/// parameters.
pub enum TokenRequestStart {
    /// No call is needed; this is the token.
    Ready {
        /// The access token.
        token: String,
    },
    /// Call the token endpoint.
    Call {
        /// The form parameters of the token request, in order.
        params: Vec<(String, String)>,
        /// The client secret to remember for the state reached on success,
        /// if this flow has one.
        client_secret: Option<String>,
    },
}

/// The form parameters of an authorization-code token exchange, before the
/// secret or verifier and the optional redirect URI.
pub open spec fn spec_code_grant_params(client_id: Seq<char>, code: Seq<char>) -> Seq<
    (Seq<char>, Seq<char>),
> {
    seq![
        ("grant_type"@, "authorization_code"@),
        ("code"@, code),
        ("client_id"@, client_id),
    ]
}

/// The optional trailing `redirect_uri` form parameter.
pub open spec fn spec_redirect_param(uri: Option<String>) -> Seq<(Seq<char>, Seq<char>)> {
    match uri {
        Some(u) => seq![("redirect_uri"@, u@)],
        None => Seq::empty(),
    }
}

/// The form parameters that the token exchange sends for a given
/// authorization state, exactly as [`Authorization::begin_token_request`]
/// produces them.
pub open spec fn spec_token_params(client_id: Seq<char>, state: AuthorizationState) -> Seq<
    (Seq<char>, Seq<char>),
> {
    match state {
        AuthorizationState::InitialAuth {
            flow_type: Oauth2Type::AuthorizationCode { client_secret },
            auth_code,
            redirect_uri,
        } => spec_code_grant_params(client_id, auth_code@) + seq![
            ("client_secret"@, client_secret@),
        ] + spec_redirect_param(redirect_uri),
        AuthorizationState::InitialAuth {
            flow_type: Oauth2Type::PKCE(pkce),
            auth_code,
            redirect_uri,
        } => spec_code_grant_params(client_id, auth_code@) + seq![
            ("code_verifier"@, pkce.spec_code()),
        ] + spec_redirect_param(redirect_uri),
        AuthorizationState::Refresh { refresh_token } => seq![
            ("grant_type"@, "refresh_token"@),
            ("refresh_token"@, refresh_token@),
            ("client_id"@, client_id),
        ],
        _ => Seq::empty(),
    }
}

impl Authorization {
    /// The client ID the authorization was made for.
    pub closed spec fn spec_client_id(&self) -> Seq<char> {
        self.client_id@
    }

    /// The state of the authorization.
    pub closed spec fn spec_state(&self) -> AuthorizationState {
        self.state
    }

    /// Create a new instance using the authorization code provided upon
    /// redirect back to your app (or via manual user entry if not using a
    /// redirect URI) after the user logs in.
    ///
    /// Requires the client ID; the type of OAuth2 flow being used (including
    /// the client secret or the PKCE challenge); the authorization code; and
    /// the redirect URI used for the original authorization request, if any.
    pub fn from_auth_code(
        client_id: String,
        flow_type: Oauth2Type,
        auth_code: String,
        redirect_uri: Option<String>,
    ) -> (r: Authorization)
        ensures
            r.spec_client_id() == client_id@,
            r.spec_state() == (AuthorizationState::InitialAuth { flow_type, auth_code, redirect_uri }),
    {
        Authorization {
            client_id,
            state: AuthorizationState::InitialAuth { flow_type, auth_code, redirect_uri },
        }
    }

    /// Recreate the authorization from a refresh token.
    pub fn from_refresh_token(client_id: String, refresh_token: String) -> (r: Authorization)
        ensures
            r.spec_client_id() == client_id@,
            r.spec_state() == (AuthorizationState::Refresh { refresh_token }),
    {
        Authorization { client_id, state: AuthorizationState::Refresh { refresh_token } }
    }

    /// Recreate the authorization from a long-lived access token. This token
    /// cannot be refreshed; any call to
    /// [`obtain_access_token`](Authorization::obtain_access_token) will
    /// simply return the given token. Therefore this requires neither client
    /// ID nor client secret.
    ///
    /// Long-lived tokens are deprecated and the ability to generate them is
    /// being sunset.
    pub fn from_long_lived_access_token(access_token: String) -> (r: Authorization)
        ensures
            r.spec_client_id() == Seq::<char>::empty(),
            r.spec_state() == (AuthorizationState::AccessToken {
                client_secret: None,
                token: access_token,
            }),
    {
        Authorization {
            client_id: String::new(),
            state: AuthorizationState::AccessToken { client_secret: None, token: access_token },
        }
    }

    /// Save the authorization state to a string which can be reloaded later.
    ///
    /// Returns `None` if the state cannot be saved (e.g. authorization has
    /// not completed getting a token yet).
    pub fn save(&self) -> (r: Option<String>)
        ensures
            match self.spec_state() {
                AuthorizationState::AccessToken { client_secret: Option::None, token } => (
                r matches Some(s) && s@ == "1&"@ + token@),
                AuthorizationState::Refresh { refresh_token } => (r matches Some(s) && s@ == "2&"@
                    + refresh_token@),
                _ => r is None,
            },
    {
        match &self.state {
            AuthorizationState::AccessToken { token, client_secret: Option::None } => {
                // Legacy long-lived access token.
                Some("1&".to_owned().concat(token.as_str()))
            },
            AuthorizationState::Refresh { refresh_token } => {
                Some("2&".to_owned().concat(refresh_token.as_str()))
            },
            _ => None,
        }
    }

    /// Reload a saved authorization state produced by
    /// [`save`](Authorization::save).
    ///
    /// Returns `None` if the string could not be recognized. In this case,
    /// you should start the authorization procedure from scratch.
    ///
    /// Note that a loaded authorization state is not necessarily still valid
    /// and may produce [`Authentication`](crate::Error::Authentication)
    /// errors. In such a case you should also start the authorization
    /// procedure from scratch.
    pub fn load(client_id: String, saved: &str) -> (r: Option<Authorization>)
        ensures
            ({
                let s = saved@;
                if s.len() >= 2 && s[0] == '1' && s[1] == '&' {
                    r matches Some(a) && (a.spec_client_id() == Seq::<char>::empty() && (
                    a.spec_state() matches AuthorizationState::AccessToken {
                        client_secret: Option::None,
                        token,
                    } && token@ == s.skip(2)))
                } else if s.len() >= 2 && s[0] == '2' && s[1] == '&' {
                    r matches Some(a) && (a.spec_client_id() == client_id@ && (
                    a.spec_state() matches AuthorizationState::Refresh { refresh_token }
                        && refresh_token@ == s.skip(2)))
                } else {
                    r is None
                }
            }),
    {
        let n = saved.unicode_len();
        if n < 2 {
            return None;
        }
        let c0 = saved.get_char(0);
        let c1 = saved.get_char(1);
        if c1 != '&' {
            return None;
        }
        let rest = saved.substring_char(2, n).to_owned();
        proof {
            assert(rest@ =~= saved@.skip(2));
        }
        if c0 == '1' {
            Some(Authorization::from_long_lived_access_token(rest))
        } else if c0 == '2' {
            Some(Authorization::from_refresh_token(client_id, rest))
        } else {
            None
        }
    }

    /// The first step of obtaining an access token: either one is at hand
    /// (a terminal access-token state returns its token; the implicit grant
    /// turns its authorization code into the token), or the token endpoint
    /// must be called with exactly the form parameters returned.
    pub fn begin_token_request(&mut self) -> (r: TokenRequestStart)
        ensures
            match old(self).spec_state() {
                AuthorizationState::AccessToken { token, .. } => (r matches TokenRequestStart::Ready {
                    token: t,
                } && t == token && *final(self) == *old(self)),
                AuthorizationState::InitialAuth {
                    flow_type: Oauth2Type::ImplicitGrant,
                    auth_code,
                    ..
                } => (r matches TokenRequestStart::Ready { token: t } && t == auth_code
                    && final(self).spec_client_id() == old(self).spec_client_id()
                    && final(self).spec_state() == (AuthorizationState::AccessToken {
                    client_secret: None,
                    token: auth_code,
                })),
                _ => (r matches TokenRequestStart::Call { params, client_secret } && (*final(self)
                    == *old(self) && view_pairs(params@) == spec_token_params(
                    old(self).spec_client_id(),
                    old(self).spec_state(),
                ) && client_secret == (match old(self).spec_state() {
                    AuthorizationState::InitialAuth {
                        flow_type: Oauth2Type::AuthorizationCode { client_secret: cs },
                        ..
                    } => Some(cs),
                    _ => Option::<String>::None,
                }))),
            },
    {
        match &self.state {
            AuthorizationState::AccessToken { token, .. } => {
                // Terminal: the stored token is all there is; a fresh
                // authorization flow is the only way to replace it.
                TokenRequestStart::Ready { token: token.clone() }
            },
            AuthorizationState::InitialAuth {
                flow_type: Oauth2Type::ImplicitGrant,
                auth_code,
                ..
            } => {
                let code = auth_code.clone();
                self.state = AuthorizationState::AccessToken {
                    client_secret: None,
                    token: code.clone(),
                };
                TokenRequestStart::Ready { token: code }
            },
            AuthorizationState::InitialAuth {
                flow_type: Oauth2Type::AuthorizationCode { client_secret },
                auth_code,
                redirect_uri,
            } => {
                let mut params: Vec<(String, String)> = Vec::new();
                params.push(("grant_type".to_owned(), "authorization_code".to_owned()));
                params.push(("code".to_owned(), auth_code.clone()));
                params.push(("client_id".to_owned(), self.client_id.clone()));
                params.push(("client_secret".to_owned(), client_secret.clone()));
                if let Some(uri) = redirect_uri {
                    params.push(("redirect_uri".to_owned(), uri.clone()));
                }
                proof {
                    assert(view_pairs(params@) =~= spec_token_params(
                        self.spec_client_id(),
                        self.spec_state(),
                    ));
                }
                TokenRequestStart::Call { params, client_secret: Some(client_secret.clone()) }
            },
            AuthorizationState::InitialAuth {
                flow_type: Oauth2Type::PKCE(pkce),
                auth_code,
                redirect_uri,
            } => {
                let mut params: Vec<(String, String)> = Vec::new();
                params.push(("grant_type".to_owned(), "authorization_code".to_owned()));
                params.push(("code".to_owned(), auth_code.clone()));
                params.push(("client_id".to_owned(), self.client_id.clone()));
                params.push(("code_verifier".to_owned(), pkce.code.clone()));
                if let Some(uri) = redirect_uri {
                    params.push(("redirect_uri".to_owned(), uri.clone()));
                }
                proof {
                    assert(view_pairs(params@) =~= spec_token_params(
                        self.spec_client_id(),
                        self.spec_state(),
                    ));
                }
                TokenRequestStart::Call { params, client_secret: None }
            },
            AuthorizationState::Refresh { refresh_token } => {
                let mut params: Vec<(String, String)> = Vec::new();
                params.push(("grant_type".to_owned(), "refresh_token".to_owned()));
                params.push(("refresh_token".to_owned(), refresh_token.clone()));
                params.push(("client_id".to_owned(), self.client_id.clone()));
                proof {
                    assert(view_pairs(params@) =~= spec_token_params(
                        self.spec_client_id(),
                        self.spec_state(),
                    ));
                }
                TokenRequestStart::Call { params, client_secret: None }
            },
        }
    }

    /// The last step of obtaining an access token: record what the token
    /// endpoint granted. A granted refresh token moves the state forward to
    /// `Refresh`; an access token alone is terminal, except that a state
    /// already able to refresh keeps that ability.
    fn finish_token_request(
        &mut self,
        access_token: &String,
        refresh_token: Option<String>,
        client_secret: Option<String>,
    )
        ensures
            final(self).spec_client_id() == old(self).spec_client_id(),
            final(self).spec_state() == (match refresh_token {
                Some(rt) => AuthorizationState::Refresh { refresh_token: rt },
                None => {
                    if !(old(self).spec_state() is Refresh) {
                        AuthorizationState::AccessToken {
                            client_secret,
                            token: *access_token,
                        }
                    } else {
                        old(self).spec_state()
                    }
                },
            }),
    {
        match refresh_token {
            Some(rt) => {
                self.state = AuthorizationState::Refresh { refresh_token: rt };
            },
            None => {
                if !matches!(self.state, AuthorizationState::Refresh { .. }) {
                    self.state = AuthorizationState::AccessToken {
                        client_secret,
                        token: access_token.clone(),
                    };
                }
            },
        }
    }

    /// Obtain an access token. Use this to complete the authorization
    /// process, or to obtain an updated token when a short-lived access
    /// token has expired.
    ///
    /// A state that already holds its token returns it without a network
    /// call, exactly as stated; for the paths that call the token endpoint,
    /// the exact behavior of each piece is stated on
    /// [`begin_token_request`](Authorization::begin_token_request), the
    /// token-response parser, and the state update, and a failure leaves
    /// this value unchanged.
    pub fn obtain_access_token<TClient: HttpClient>(&mut self, client: &TClient) -> (r: Result<
        String,
        Error<NoError>,
    >)
        ensures
            (match old(self).spec_state() {
                AuthorizationState::AccessToken { token, .. } => r == Result::<
                    String,
                    Error<NoError>,
                >::Ok(token) && *final(self) == *old(self),
                AuthorizationState::InitialAuth {
                    flow_type: Oauth2Type::ImplicitGrant,
                    auth_code,
                    ..
                } => r == Result::<String, Error<NoError>>::Ok(auth_code)
                    && final(self).spec_state() == (AuthorizationState::AccessToken {
                    client_secret: None,
                    token: auth_code,
                }),
                _ => r is Err ==> *final(self) == *old(self),
            }),
    {
        let (params, client_secret) = match self.begin_token_request() {
            TokenRequestStart::Ready { token } => {
                return Ok(token);
            },
            TokenRequestStart::Call { params, client_secret } => (params, client_secret),
        };

        let body = form_urlencode_pairs(&params);
        let (req, params_body) = prepare_request(
            Endpoint::OAuth2,
            Style::Rpc,
            "oauth2/token",
            body,
            ParamsType::Form,
            None,
            None,
            &None,
            &None,
            &None,
        );
        let send_body: Vec<u8> = match params_body {
            Some(pb) => pb.as_str().as_bytes_vec(),
            None => Vec::new(),
        };
        let raw = match client.execute(&req, &send_body) {
            Ok(raw) => raw,
            Err(msg) => {
                return Err(Error::HttpClient(msg));
            },
        };
        let result_json = match parse_response(raw, Style::Rpc) {
            ParsedResponse::Success { result_json, .. } => result_json,
            ParsedResponse::ApiFailureBody { .. } => {
                return Err(
                    Error::UnexpectedResponse("unexpected API error from token endpoint".to_owned()),
                );
            },
            ParsedResponse::Failed(e) => {
                return Err(e);
            },
        };
        match parse_token_response(result_json.as_str()) {
            Some((access_token, refresh_token)) => {
                self.finish_token_request(&access_token, refresh_token, client_secret);
                Ok(access_token)
            },
            None => Err(
                Error::UnexpectedResponse("no access token in token endpoint response".to_owned()),
            ),
        }
    }
}

/// The form-urlencoded rendering of a list of key-value pairs, keys and
/// values percent-encoded and joined with `=` and `&`.
pub open spec fn spec_form_encoded(pairs: Seq<(Seq<char>, Seq<char>)>) -> Seq<char>
    decreases pairs.len(),
{
    if pairs.len() == 0 {
        Seq::empty()
    } else if pairs.len() == 1 {
        spec_form_urlencode(pairs[0].0) + "="@ + spec_form_urlencode(pairs[0].1)
    } else {
        spec_form_encoded(pairs.drop_last()) + "&"@ + spec_form_urlencode(pairs.last().0) + "="@
            + spec_form_urlencode(pairs.last().1)
    }
}

/// Render key-value pairs as `application/x-www-form-urlencoded` content.
pub fn form_urlencode_pairs(pairs: &Vec<(String, String)>) -> (r: String)
    ensures
        r@ == spec_form_encoded(view_pairs(pairs@)),
{
    let mut out = String::new();
    let mut i: usize = 0;
    while i < pairs.len()
        invariant
            0 <= i <= pairs@.len(),
            out@ == spec_form_encoded(view_pairs(pairs@).take(i as int)),
        decreases pairs@.len() - i,
    {
        if i > 0 {
            out.append("&");
        }
        out.append(form_urlencode(pairs[i].0.as_str()).as_str());
        out.append("=");
        out.append(form_urlencode(pairs[i].1.as_str()).as_str());
        proof {
            assert(view_pairs(pairs@).take(i + 1).drop_last() =~= view_pairs(pairs@).take(i as int));
            assert(view_pairs(pairs@).take(i + 1).last() == (pairs@[i as int].0@, pairs@[i as int].1@));
        }
        i = i + 1;
    }
    proof {
        assert(view_pairs(pairs@).take(pairs@.len() as int) =~= view_pairs(pairs@));
    }
    out
}

/// Whether an update that observed the token `observed` must perform the
/// underlying refresh against a cache holding `cached`: exactly when the
/// cache still holds what the caller observed. Writers serialize on the
/// cache, so of all the concurrent callers that observed the same stale
/// token, the first one in refreshes, stores a fresh token, and thereby
/// turns this decision off for every later one.
pub open spec fn spec_needs_refresh(cached: Seq<char>, observed: Seq<char>) -> bool {
    cached == observed
}

/// Concurrent token updates that observed the same stale token perform
/// exactly one underlying refresh: against the unchanged cache the decision
/// is to refresh, and against the cache once a refresh has stored a fresh
/// token — one differing from the stale one — the decision is to reuse.
pub proof fn lemma_single_flight(stale: Seq<char>, fresh: Seq<char>)
    requires
        fresh != stale,
    ensures
        spec_needs_refresh(stale, stale),
        !spec_needs_refresh(fresh, stale),
{
}

/// `TokenCache` provides the current OAuth2 token and a means to refresh it
/// in a thread-safe way: writers serialize on the cache — share it behind a
/// reader/writer lock — and deduplicate their refreshes by comparing the
/// cache against the token they observed.
#[derive(Debug)]
pub struct TokenCache {
    auth: Authorization,
    token: String,
}

impl TokenCache {
    /// The cached token; empty when no token was obtained yet.
    pub closed spec fn spec_token(&self) -> Seq<char> {
        self.token@
    }

    /// The authorization the cache draws tokens from.
    pub closed spec fn spec_auth(&self) -> Authorization {
        self.auth
    }

    /// Make a new token cache, using the given [`Authorization`] as a source
    /// of tokens.
    pub fn new(auth: Authorization) -> (r: TokenCache)
        ensures
            r.spec_auth() == auth,
            r.spec_token() == Seq::<char>::empty(),
    {
        TokenCache { auth, token: String::new() }
    }

    /// Get the current token, unless no cached token is set yet.
    pub fn get_token(&self) -> (r: Option<String>)
        ensures
            match r {
                Some(t) => t@ == self.spec_token() && self.spec_token().len() != 0,
                None => self.spec_token().len() == 0,
            },
    {
        if self.token.as_str().is_empty() {
            None
        } else {
            Some(self.token.clone())
        }
    }

    /// Forces an update to the token, for when it is detected that the token
    /// is expired.
    ///
    /// To avoid double-updating the token in a race, requires the token
    /// which is being replaced: if the cache already holds a different
    /// token, another caller already refreshed concurrently, and that token
    /// is returned without a network call. A failed refresh leaves the
    /// cache unchanged.
    pub fn update_token<TClient: HttpClient>(&mut self, client: &TClient, old_token: String) -> (r:
        Result<String, Error<NoError>>)
        ensures
            !spec_needs_refresh(old(self).spec_token(), old_token@) ==> (r matches Ok(t) && (
            *final(self) == *old(self) && t@ == old(self).spec_token())),
            r is Err ==> *final(self) == *old(self),
            r matches Ok(t) ==> t@ == final(self).spec_token(),
    {
        // Check if the token changed while we were unlocked; only update it
        // if it didn't.
        if self.token == old_token {
            match self.auth.obtain_access_token(client) {
                Ok(t) => {
                    self.token = t.clone();
                    Ok(t)
                },
                Err(e) => Err(e),
            }
        } else {
            Ok(self.token.clone())
        }
    }
}

} // verus!
