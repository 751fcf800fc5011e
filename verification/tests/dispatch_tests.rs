//! Tests for the request dispatcher: the one-shot authentication retry and
//! typed API failures.

use std::cell::RefCell;
use dropbox_sdk::client_helpers::request;
use dropbox_sdk::client_trait::{HttpClient, HttpRequestResultRaw, PreparedRequest};
use dropbox_sdk::types::auth::AuthError;
use dropbox_sdk::types::contacts::DeleteManualContactsError;
use dropbox_sdk::types::openid::{OpenIdError, UserInfoError};
use dropbox_sdk::{Endpoint, Error, NoError, Style};

fn header<'a>(req: &'a PreparedRequest, name: &str) -> Option<&'a str> {
    req.headers.iter().find(|(n, _)| n == name).map(|(_, v)| v.as_str())
}

/// A client whose token can expire: it rejects any request not made with
/// `valid_token`, and refreshing installs `fresh_token`.
struct ExpiringClient {
    valid_token: String,
    fresh_token: String,
    refresh_works: bool,
    token: RefCell<String>,
    requests: RefCell<Vec<Option<String>>>,
    refreshes: RefCell<u32>,
}

impl ExpiringClient {
    fn new(valid: &str, fresh: &str, current: &str, refresh_works: bool) -> Self {
        ExpiringClient {
            valid_token: valid.to_owned(),
            fresh_token: fresh.to_owned(),
            refresh_works,
            token: RefCell::new(current.to_owned()),
            requests: RefCell::new(Vec::new()),
            refreshes: RefCell::new(0),
        }
    }
}

impl HttpClient for ExpiringClient {
    fn execute(
        &self,
        request: &PreparedRequest,
        _body: &Vec<u8>,
    ) -> Result<HttpRequestResultRaw, String> {
        let auth = header(request, "Authorization").map(|v| v.to_owned());
        self.requests.borrow_mut().push(auth.clone());
        let expected = format!("Bearer {}", self.valid_token);
        if auth.as_deref() == Some(expected.as_str()) {
            Ok(HttpRequestResultRaw {
                status: 200,
                result_header: None,
                content_length: None,
                body: r#"{"ok":true}"#.to_owned(),
            })
        } else {
            Ok(HttpRequestResultRaw {
                status: 401,
                result_header: None,
                content_length: None,
                body: r#"{"error":{".tag":"expired_access_token"}}"#.to_owned(),
            })
        }
    }

    fn update_token(&self, _old_token: String) -> Result<bool, Error<NoError>> {
        *self.refreshes.borrow_mut() += 1;
        if self.refresh_works {
            *self.token.borrow_mut() = self.fresh_token.clone();
            Ok(true)
        } else {
            Ok(false)
        }
    }

    fn token(&self) -> Option<String> {
        let t = self.token.borrow();
        if t.is_empty() { None } else { Some(t.clone()) }
    }
}

#[test]
fn expired_token_triggers_exactly_one_retry_with_fresh_token() {
    let client = ExpiringClient::new("t2", "t2", "t1", true);
    let r = request::<ExpiringClient, NoError>(
        &client,
        Endpoint::Api,
        Style::Rpc,
        "check/user",
        r#"{"query":"x"}"#.to_owned(),
        None,
    );
    assert_eq!(r.expect("retried request must succeed"), r#"{"ok":true}"#);
    assert_eq!(*client.refreshes.borrow(), 1);
    let requests = client.requests.borrow();
    assert_eq!(requests.len(), 2);
    assert_eq!(requests[0].as_deref(), Some("Bearer t1"));
    assert_eq!(requests[1].as_deref(), Some("Bearer t2"));
}

#[test]
fn second_expired_classification_is_fatal() {
    // The freshly refreshed token is itself rejected: after exactly one
    // retry the authentication error surfaces.
    let client = ExpiringClient::new("never", "t2", "t1", true);
    let r = request::<ExpiringClient, NoError>(
        &client,
        Endpoint::Api,
        Style::Rpc,
        "check/user",
        r#"{"query":"x"}"#.to_owned(),
        None,
    );
    match r {
        Err(Error::Authentication(AuthError::ExpiredAccessToken)) => {}
        other => panic!("wrong result: {:?}", other),
    }
    assert_eq!(*client.refreshes.borrow(), 1);
    assert_eq!(client.requests.borrow().len(), 2);
}

#[test]
fn failed_refresh_surfaces_the_authentication_error() {
    let client = ExpiringClient::new("never", "t2", "t1", false);
    let r = request::<ExpiringClient, NoError>(
        &client,
        Endpoint::Api,
        Style::Rpc,
        "check/user",
        r#"{"query":"x"}"#.to_owned(),
        None,
    );
    match r {
        Err(Error::Authentication(AuthError::ExpiredAccessToken)) => {}
        other => panic!("wrong result: {:?}", other),
    }
    assert_eq!(*client.refreshes.borrow(), 1);
    assert_eq!(client.requests.borrow().len(), 1);
}

/// A client that always returns one fixed response.
struct FixedClient {
    status: u16,
    body: String,
}

impl HttpClient for FixedClient {
    fn execute(
        &self,
        _request: &PreparedRequest,
        _body: &Vec<u8>,
    ) -> Result<HttpRequestResultRaw, String> {
        Ok(HttpRequestResultRaw {
            status: self.status,
            result_header: None,
            content_length: None,
            body: self.body.clone(),
        })
    }

    fn token(&self) -> Option<String> {
        Some("token".to_owned())
    }
}

#[test]
fn conflict_parses_the_declared_error_schema() {
    let client = FixedClient {
        status: 409,
        body: r#"{"error_summary":"contacts_not_found/","error":{".tag":"contacts_not_found","contacts_not_found":["a@b.example","c@d.example"]}}"#.to_owned(),
    };
    let r = request::<FixedClient, DeleteManualContactsError>(
        &client,
        Endpoint::Api,
        Style::Rpc,
        "contacts/delete_manual_contacts",
        r#"{"email_addresses":["a@b.example"]}"#.to_owned(),
        None,
    );
    match r {
        Err(Error::Api(DeleteManualContactsError::ContactsNotFound(emails))) => {
            assert_eq!(emails, vec!["a@b.example".to_owned(), "c@d.example".to_owned()]);
        }
        other => panic!("expected the typed API error, got {:?}", other),
    }
}

#[test]
fn conflict_with_nested_schema_parses_the_inner_error() {
    let client = FixedClient {
        status: 409,
        body: r#"{"error":{".tag":"openid_error","openid_error":{".tag":"incorrect_openid_scopes"}}}"#.to_owned(),
    };
    let r = request::<FixedClient, UserInfoError>(
        &client,
        Endpoint::Api,
        Style::Rpc,
        "openid/userinfo",
        "{}".to_owned(),
        None,
    );
    match r {
        Err(Error::Api(UserInfoError::OpenidError(OpenIdError::IncorrectOpenidScopes))) => {}
        other => panic!("expected the typed API error, got {:?}", other),
    }
}

#[test]
fn conflict_with_unknown_tag_is_the_catch_all() {
    let client = FixedClient {
        status: 409,
        body: r#"{"error":{".tag":"a_brand_new_failure"}}"#.to_owned(),
    };
    let r = request::<FixedClient, UserInfoError>(
        &client,
        Endpoint::Api,
        Style::Rpc,
        "openid/userinfo",
        "{}".to_owned(),
        None,
    );
    assert!(matches!(r, Err(Error::Api(UserInfoError::Other))));
}

#[test]
fn conflict_with_malformed_body_downgrades_to_json_error() {
    let client = FixedClient { status: 409, body: "not json".to_owned() };
    let r = request::<FixedClient, DeleteManualContactsError>(
        &client,
        Endpoint::Api,
        Style::Rpc,
        "contacts/delete_manual_contacts",
        "{}".to_owned(),
        None,
    );
    assert!(matches!(r, Err(Error::Json(_))));
}

/// An echoing stub standing in for the service: answers the check route
/// with the query it was sent.
struct TestSyncClient;

impl HttpClient for TestSyncClient {
    fn execute(
        &self,
        request: &PreparedRequest,
        body: &Vec<u8>,
    ) -> Result<HttpRequestResultRaw, String> {
        match request.url.as_str() {
            "https://api.dropboxapi.com/2/check/user" => {
                let arg: serde_json::Value =
                    serde_json::from_slice(body).map_err(|e| e.to_string())?;
                let query = arg["query"].as_str().unwrap_or_default();
                Ok(HttpRequestResultRaw {
                    status: 200,
                    result_header: None,
                    content_length: None,
                    body: format!(r#"{{"result":"{}"}}"#, query),
                })
            }
            url => Err(format!("unhandled URL {}", url)),
        }
    }
}

#[test]
fn test_sync_client() {
    let client = TestSyncClient;
    let query = "foobar";
    let resp = request::<TestSyncClient, NoError>(
        &client,
        Endpoint::Api,
        Style::Rpc,
        "check/user",
        format!(r#"{{"query":"{}"}}"#, query),
        None,
    )
    .expect("request must not fail");
    let parsed: serde_json::Value = serde_json::from_str(&resp).expect("response must be JSON");
    if parsed["result"].as_str() != Some(query) {
        panic!("response mismatch");
    }
}
