//! Data types for the openid namespace.

use vstd::prelude::*;
use crate::classify::{parse_error_tag, spec_error_tag};
use crate::client_helpers::ErrorSchema;
use crate::text::{str_eq, view_opt_string};

verus! {

/// The string at `/error/openid_error/.tag` of a JSON document, if the
/// document parses and carries a string there.
pub uninterp spec fn spec_openid_subtag(body: Seq<char>) -> Option<Seq<char>>;

/// Relies on `serde_json::from_str` and `serde_json::Value::pointer` /
/// `Value::as_str`: returns the string at `/error/openid_error/.tag` of the
/// JSON document `body`, or `None` if `body` does not parse as JSON or holds
/// no string there. The result depends on `body` alone.
#[verifier::external_body]
fn parse_openid_subtag(body: &str) -> (r: Option<String>)
    ensures
        match r {
            Some(t) => spec_openid_subtag(body@) == Some(t@),
            None => spec_openid_subtag(body@) is None,
        },
{
    let v: serde_json::Value = match serde_json::from_str(body) {
        Ok(v) => v,
        Err(_) => return None,
    };
    Some(v.pointer("/error/openid_error/.tag")?.as_str()?.to_owned())
}

/// The fields of a user-info response: the optional strings at
/// `/family_name`, `/given_name` and `/email`, the optional boolean at
/// `/email_verified`, and the strings at `/iss` and `/sub`, each taken as
/// empty when absent. `None` when the body is not a JSON object.
pub uninterp spec fn spec_user_info(body: Seq<char>) -> Option<
    (Option<Seq<char>>, Option<Seq<char>>, Option<Seq<char>>, Option<bool>, Seq<char>, Seq<char>),
>;

/// Relies on `serde_json::from_str` and `serde_json::Value::is_object` /
/// `Value::pointer` / `Value::as_str` / `Value::as_bool`: extracts the six
/// user-info fields from the JSON document `body`, each optional field
/// absent when missing or not of its type, and issuer and subject empty
/// when missing. The result depends on `body` alone.
#[verifier::external_body]
fn parse_user_info(body: &str) -> (r: Option<
    (Option<String>, Option<String>, Option<String>, Option<bool>, String, String),
>)
    ensures
        match r {
            Some(t) => spec_user_info(body@) == Some(
                (
                    view_opt_string(t.0),
                    view_opt_string(t.1),
                    view_opt_string(t.2),
                    t.3,
                    t.4@,
                    t.5@,
                ),
            ),
            None => spec_user_info(body@) is None,
        },
{
    let v: serde_json::Value = serde_json::from_str(body).ok()?;
    if !v.is_object() {
        return None;
    }
    let g = |p: &str| Some(v.pointer(p)?.as_str()?.to_owned());
    let ev = v.pointer("/email_verified").and_then(|x| x.as_bool());
    let (iss, sub) = (g("/iss").unwrap_or_default(), g("/sub").unwrap_or_default());
    Some((g("/family_name"), g("/given_name"), g("/email"), ev, iss, sub))
}

/// Errors for routes which require an OpenID scope.
#[derive(Debug, Clone, Copy, PartialEq, Eq, Structural)]
pub enum OpenIdError {
    /// Missing openid claims for the associated access token.
    IncorrectOpenidScopes,
    /// Catch-all used for unrecognized values returned from the server.
    Other,
}

impl OpenIdError {
    /// The variant denoted by a wire tag.
    pub open spec fn spec_from_tag(tag: Seq<char>) -> OpenIdError {
        if tag == "incorrect_openid_scopes"@ {
            OpenIdError::IncorrectOpenidScopes
        } else {
            OpenIdError::Other
        }
    }

    /// Map a wire tag to the variant it denotes; an unrecognized tag maps
    /// to [`OpenIdError::Other`].
    pub fn from_tag(tag: &str) -> (r: OpenIdError)
        ensures
            r == OpenIdError::spec_from_tag(tag@),
    {
        if str_eq(tag, "incorrect_openid_scopes") {
            OpenIdError::IncorrectOpenidScopes
        } else {
            OpenIdError::Other
        }
    }
}

/// No Parameters
#[derive(Debug, Clone, PartialEq, Eq)]
pub struct UserInfoArgs {}

impl UserInfoArgs {
    /// Make a new, empty argument.
    pub fn new() -> (r: UserInfoArgs) {
        UserInfoArgs {}
    }
}

impl std::default::Default for UserInfoArgs {
    /// The default argument is the empty argument.
    fn default() -> (r: UserInfoArgs) {
        UserInfoArgs {}
    }
}

/// Error for the user info route.
#[derive(Debug, Clone, Copy, PartialEq, Eq, Structural)]
pub enum UserInfoError {
    /// An OpenID scope was missing.
    OpenidError(OpenIdError),
    /// Catch-all used for unrecognized values returned from the server.
    Other,
}

impl ErrorSchema for UserInfoError {
    /// A failure body tagged `openid_error` denotes that variant with the
    /// inner error its own tag denotes; any other tag denotes the
    /// catch-all.
    open spec fn spec_parses_to(body: Seq<char>, e: UserInfoError) -> bool {
        match spec_error_tag(body) {
            Some(tag) => {
                if tag == "openid_error"@ {
                    match spec_openid_subtag(body) {
                        Some(st) => e == UserInfoError::OpenidError(OpenIdError::spec_from_tag(st)),
                        None => false,
                    }
                } else {
                    e is Other
                }
            },
            None => false,
        }
    }

    /// A body with no error tag, or one tagged `openid_error` without an
    /// inner tag, denotes no value.
    open spec fn spec_parse_fails(body: Seq<char>) -> bool {
        match spec_error_tag(body) {
            Some(tag) => tag == "openid_error"@ && spec_openid_subtag(body) is None,
            None => true,
        }
    }

    fn parse_api_error(body: &str) -> (r: Option<UserInfoError>) {
        let tag = match parse_error_tag(body) {
            Some(t) => t,
            None => {
                return None;
            },
        };
        if str_eq(tag.as_str(), "openid_error") {
            match parse_openid_subtag(body) {
                Some(st) => Some(UserInfoError::OpenidError(OpenIdError::from_tag(st.as_str()))),
                None => None,
            }
        } else {
            Some(UserInfoError::Other)
        }
    }
}

/// The information returned about a user.
#[derive(Debug, Clone, PartialEq, Eq)]
pub struct UserInfoResult {
    /// Last name of user.
    pub family_name: Option<String>,
    /// First name of user.
    pub given_name: Option<String>,
    /// Email address of user.
    pub email: Option<String>,
    /// If user is email verified.
    pub email_verified: Option<bool>,
    /// Issuer of token.
    pub iss: String,
    /// An identifier for the user: the account ID.
    pub sub: String,
}

impl UserInfoResult {
    /// Set the last name of the user.
    pub fn with_family_name(self, value: String) -> (r: UserInfoResult)
        ensures
            r == (UserInfoResult { family_name: Some(value), ..self }),
    {
        UserInfoResult { family_name: Some(value), ..self }
    }

    /// Set the first name of the user.
    pub fn with_given_name(self, value: String) -> (r: UserInfoResult)
        ensures
            r == (UserInfoResult { given_name: Some(value), ..self }),
    {
        UserInfoResult { given_name: Some(value), ..self }
    }

    /// Set the email address of the user.
    pub fn with_email(self, value: String) -> (r: UserInfoResult)
        ensures
            r == (UserInfoResult { email: Some(value), ..self }),
    {
        UserInfoResult { email: Some(value), ..self }
    }

    /// Set whether the user is email verified.
    pub fn with_email_verified(self, value: bool) -> (r: UserInfoResult)
        ensures
            r == (UserInfoResult { email_verified: Some(value), ..self }),
    {
        UserInfoResult { email_verified: Some(value), ..self }
    }

    /// Set the issuer of the token.
    pub fn with_iss(self, value: String) -> (r: UserInfoResult)
        ensures
            r == (UserInfoResult { iss: value, ..self }),
    {
        UserInfoResult { iss: value, ..self }
    }

    /// Set the identifier of the user.
    pub fn with_sub(self, value: String) -> (r: UserInfoResult)
        ensures
            r == (UserInfoResult { sub: value, ..self }),
    {
        UserInfoResult { sub: value, ..self }
    }
}

impl UserInfoResult {
    /// Parse a user-info response body into a result value: exactly the
    /// fields the named parse finds, with issuer and subject empty when the
    /// body omits them. `None` when the body is not a JSON object.
    pub fn from_json(body: &str) -> (r: Option<UserInfoResult>)
        ensures
            match r {
                Some(u) => spec_user_info(body@) == Some(
                    (
                        view_opt_string(u.family_name),
                        view_opt_string(u.given_name),
                        view_opt_string(u.email),
                        u.email_verified,
                        u.iss@,
                        u.sub@,
                    ),
                ),
                None => spec_user_info(body@) is None,
            },
    {
        match parse_user_info(body) {
            Some((family_name, given_name, email, email_verified, iss, sub)) => Some(
                UserInfoResult { family_name, given_name, email, email_verified, iss, sub },
            ),
            None => None,
        }
    }
}

impl std::default::Default for UserInfoResult {
    /// The default result has no optional field set and empty issuer and
    /// identifier.
    fn default() -> (r: UserInfoResult)
        ensures
            r.family_name is None,
            r.given_name is None,
            r.email is None,
            r.email_verified is None,
            r.iss@ == Seq::<char>::empty(),
            r.sub@ == Seq::<char>::empty(),
    {
        UserInfoResult {
            family_name: None,
            given_name: None,
            email: None,
            email_verified: None,
            iss: String::new(),
            sub: String::new(),
        }
    }
}

} // verus!
