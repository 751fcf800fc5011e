//! Tests for OAuth2 flows and the token cache.

use std::cell::RefCell;
use dropbox_sdk::client_trait::{HttpClient, HttpRequestResultRaw, PreparedRequest};
use dropbox_sdk::oauth2::{
    Authorization, AuthorizeUrlBuilder, Oauth2Type, PkceCode, TokenCache, TokenType,
};
use base64::Engine;
use dropbox_sdk::{Error, NoError};

/// A token endpoint stub: counts calls, records the last form body, and
/// hands out tokens in order.
struct TokenEndpoint {
    calls: RefCell<u32>,
    grant_refresh: bool,
    fail: bool,
    last_form: RefCell<String>,
}

impl TokenEndpoint {
    fn new(grant_refresh: bool) -> Self {
        TokenEndpoint {
            calls: RefCell::new(0),
            grant_refresh,
            fail: false,
            last_form: RefCell::new(String::new()),
        }
    }
}

impl HttpClient for TokenEndpoint {
    fn execute(
        &self,
        request: &PreparedRequest,
        body: &Vec<u8>,
    ) -> Result<HttpRequestResultRaw, String> {
        assert_eq!(request.url, "https://api.dropboxapi.com/oauth2/token");
        let form = String::from_utf8(body.clone()).expect("form body must be UTF-8");
        assert!(form.contains("grant_type="), "missing grant type in {}", form);
        *self.last_form.borrow_mut() = form;
        let mut calls = self.calls.borrow_mut();
        *calls += 1;
        if self.fail {
            return Ok(HttpRequestResultRaw {
                status: 400,
                result_header: None,
                content_length: None,
                body: "bad request".to_owned(),
            });
        }
        let token = format!("token{}", *calls);
        let body = if self.grant_refresh {
            format!(r#"{{"access_token":"{}","refresh_token":"refresh1"}}"#, token)
        } else {
            format!(r#"{{"access_token":"{}"}}"#, token)
        };
        Ok(HttpRequestResultRaw { status: 200, result_header: None, content_length: None, body })
    }
}

#[test]
fn single_flight_refresh() {
    // Two callers observed the same stale (empty) token. The first update
    // performs the one network call; the second finds the cache already
    // holding a different token and reuses it without a network call.
    let endpoint = TokenEndpoint::new(true);
    let auth = Authorization::from_refresh_token("client_id".to_owned(), "refresh0".to_owned());
    let mut cache = TokenCache::new(auth);
    assert!(cache.get_token().is_none());

    let stale = String::new();
    let t1 = cache.update_token(&endpoint, stale.clone()).expect("first update must succeed");
    let t2 = cache.update_token(&endpoint, stale.clone()).expect("second update must succeed");

    assert_eq!(*endpoint.calls.borrow(), 1, "exactly one underlying refresh call");
    assert_eq!(t1, "token1");
    assert_eq!(t2, "token1");
    assert_eq!(cache.get_token().as_deref(), Some("token1"));
}

#[test]
fn refresh_after_new_staleness_makes_a_second_call() {
    let endpoint = TokenEndpoint::new(true);
    let auth = Authorization::from_refresh_token("client_id".to_owned(), "refresh0".to_owned());
    let mut cache = TokenCache::new(auth);
    let t1 = cache.update_token(&endpoint, String::new()).expect("update must succeed");
    // A caller that observed `t1` as stale triggers a genuine refresh.
    let t2 = cache.update_token(&endpoint, t1.clone()).expect("update must succeed");
    assert_eq!(*endpoint.calls.borrow(), 2);
    assert_eq!(t2, "token2");
}

#[test]
fn failed_refresh_leaves_cache_unchanged() {
    let mut endpoint = TokenEndpoint::new(true);
    endpoint.fail = true;
    let auth = Authorization::from_refresh_token("client_id".to_owned(), "refresh0".to_owned());
    let mut cache = TokenCache::new(auth);
    let r = cache.update_token(&endpoint, String::new());
    assert!(matches!(r, Err(Error::BadRequest(_))));
    assert!(cache.get_token().is_none());
}

#[test]
fn long_lived_token_needs_no_network() {
    let endpoint = TokenEndpoint::new(false);
    let mut auth = Authorization::from_long_lived_access_token("LONGLIVED".to_owned());
    let token = auth.obtain_access_token(&endpoint).expect("must succeed");
    assert_eq!(token, "LONGLIVED");
    assert_eq!(*endpoint.calls.borrow(), 0);
}

#[test]
fn refresh_token_flow_obtains_access_token() {
    let endpoint = TokenEndpoint::new(true);
    let mut auth = Authorization::from_refresh_token("client_id".to_owned(), "refresh0".to_owned());
    let token = auth.obtain_access_token(&endpoint).expect("must succeed");
    assert_eq!(token, "token1");
    // The state can still refresh: it saves as a refresh token.
    assert_eq!(auth.save().as_deref(), Some("2&refresh1"));
}

#[test]
fn auth_code_flow_without_refresh_is_terminal() {
    let endpoint = TokenEndpoint::new(false);
    let mut auth = Authorization::from_auth_code(
        "client_id".to_owned(),
        Oauth2Type::AuthorizationCode { client_secret: "app-secret".to_owned() },
        "authcode".to_owned(),
        None,
    );
    let token = auth.obtain_access_token(&endpoint).expect("must succeed");
    assert_eq!(token, "token1");
    assert_eq!(*endpoint.calls.borrow(), 1);
    // A second call returns the stored token without another exchange.
    let again = auth.obtain_access_token(&endpoint).expect("must succeed");
    assert_eq!(again, "token1");
    assert_eq!(*endpoint.calls.borrow(), 1);
}

#[test]
fn implicit_grant_turns_the_code_into_the_token() {
    let endpoint = TokenEndpoint::new(false);
    let mut auth = Authorization::from_auth_code(
        "client_id".to_owned(),
        Oauth2Type::ImplicitGrant,
        "the_token_itself".to_owned(),
        None,
    );
    let token = auth.obtain_access_token(&endpoint).expect("must succeed");
    assert_eq!(token, "the_token_itself");
    assert_eq!(*endpoint.calls.borrow(), 0);
    assert_eq!(auth.save().as_deref(), Some("1&the_token_itself"));
}

#[test]
fn save_and_load_round_trip() {
    let auth = Authorization::from_refresh_token("cid".to_owned(), "myrefresh".to_owned());
    let saved = auth.save().expect("refresh state must save");
    assert_eq!(saved, "2&myrefresh");
    let loaded = Authorization::load("cid".to_owned(), &saved).expect("saved state must load");
    assert_eq!(loaded.save().as_deref(), Some("2&myrefresh"));

    let auth = Authorization::from_long_lived_access_token("lltoken".to_owned());
    let saved = auth.save().expect("long-lived state must save");
    assert_eq!(saved, "1&lltoken");
    let loaded = Authorization::load("cid".to_owned(), &saved).expect("saved state must load");
    assert_eq!(loaded.save().as_deref(), Some("1&lltoken"));
}

#[test]
fn load_rejects_unknown_representations() {
    assert!(Authorization::load("cid".to_owned(), "").is_none());
    assert!(Authorization::load("cid".to_owned(), "3&wat").is_none());
    assert!(Authorization::load("cid".to_owned(), "1").is_none());
    assert!(Authorization::load("cid".to_owned(), "nonsense").is_none());
}

#[test]
fn fresh_auth_state_does_not_save() {
    let auth = Authorization::from_auth_code(
        "cid".to_owned(),
        Oauth2Type::ImplicitGrant,
        "code".to_owned(),
        None,
    );
    assert!(auth.save().is_none());
}

#[test]
fn pkce_challenge_is_the_encoded_digest() {
    let pkce = PkceCode::from_code("test".to_owned());
    let digest = ring::digest::digest(&ring::digest::SHA256, b"test");
    let expected = base64::engine::general_purpose::URL_SAFE_NO_PAD.encode(digest.as_ref());
    assert_eq!(pkce.s256(), expected);
    assert_eq!(pkce.s256(), "n4bQgYhMfWWaL-qgxVrQFaO_TxsrC4Is0V1sFbDwCgg");
}

#[test]
fn pkce_codes_are_long_and_distinct() {
    let a = PkceCode::new();
    let b = PkceCode::new();
    let flow_a = Oauth2Type::PKCE(a);
    let flow_b = Oauth2Type::PKCE(b);
    let qa = AuthorizeUrlBuilder::new("cid", &flow_a).query_pairs();
    let qb = AuthorizeUrlBuilder::new("cid", &flow_b).query_pairs();
    let ca = qa.iter().find(|(k, _)| k == "code_challenge").map(|(_, v)| v.clone()).unwrap();
    let cb = qb.iter().find(|(k, _)| k == "code_challenge").map(|(_, v)| v.clone()).unwrap();
    assert_eq!(ca.len(), 43);
    assert_eq!(cb.len(), 43);
    assert!(ca.chars().all(is_urlsafe_b64_char), "challenge outside the alphabet: {}", ca);
    assert_ne!(ca, cb, "two random proof keys must differ");
}

fn is_urlsafe_b64_char(c: char) -> bool {
    c.is_ascii_alphanumeric() || c == '-' || c == '_'
}

#[test]
fn pkce_verifier_is_within_the_allowed_alphabet_and_length() {
    // The verifier travels as the code_verifier form parameter of the token
    // exchange; the protocol allows 43 to 128 characters of
    // letters, digits, and the marks `-._~`.
    let mut auth = Authorization::from_auth_code(
        "cid".to_owned(),
        Oauth2Type::PKCE(PkceCode::new()),
        "code".to_owned(),
        None,
    );
    let endpoint = TokenEndpoint::new(false);
    auth.obtain_access_token(&endpoint).expect("exchange must succeed");
    let form = endpoint.last_form.borrow().clone();
    let verifier = form
        .split('&')
        .find_map(|kv| kv.strip_prefix("code_verifier="))
        .expect("the exchange must carry the code verifier")
        .to_owned();
    assert_eq!(verifier.len(), 124);
    assert!(verifier.chars().all(is_urlsafe_b64_char), "verifier outside the alphabet");
}

#[test]
fn authorize_query_defaults() {
    let flow = Oauth2Type::ImplicitGrant;
    let pairs = AuthorizeUrlBuilder::new("myclient", &flow).query_pairs();
    assert_eq!(
        pairs,
        vec![
            ("response_type".to_owned(), "token".to_owned()),
            ("client_id".to_owned(), "myclient".to_owned()),
            ("token_access_type".to_owned(), "offline".to_owned()),
        ]
    );
}

#[test]
fn authorize_query_with_everything_set() {
    let flow = Oauth2Type::AuthorizationCode { client_secret: "app-secret".to_owned() };
    let pairs = AuthorizeUrlBuilder::new("myclient", &flow)
        .token_type(TokenType::ShortLived)
        .force_reapprove(true)
        .force_reauthentication(true)
        .disable_signup(true)
        .redirect_uri("https://example.com/back")
        .state("csrf123")
        .require_role("work")
        .locale("en-GB")
        .scope("files.read files.write")
        .query_pairs();
    assert_eq!(
        pairs,
        vec![
            ("response_type".to_owned(), "code".to_owned()),
            ("client_id".to_owned(), "myclient".to_owned()),
            ("token_access_type".to_owned(), "online".to_owned()),
            ("force_reapprove".to_owned(), "true".to_owned()),
            ("force_reauthentication".to_owned(), "true".to_owned()),
            ("disable_signup".to_owned(), "true".to_owned()),
            ("redirect_uri".to_owned(), "https://example.com/back".to_owned()),
            ("state".to_owned(), "csrf123".to_owned()),
            ("require_role".to_owned(), "work".to_owned()),
            ("locale".to_owned(), "en-GB".to_owned()),
            ("scope".to_owned(), "files.read files.write".to_owned()),
        ]
    );
}

#[test]
fn long_lived_token_type_omits_the_parameter() {
    let flow = Oauth2Type::ImplicitGrant;
    let pairs = AuthorizeUrlBuilder::new("myclient", &flow)
        .token_type(TokenType::LongLived)
        .query_pairs();
    assert!(pairs.iter().all(|(k, _)| k != "token_access_type"));
}
