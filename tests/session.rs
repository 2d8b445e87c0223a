use std::path::PathBuf;

use stonks_terminal::config::{ClientConfig, ConfigPaths};
use stonks_terminal::credentials::{Credentials, LocalCredsData};
use stonks_terminal::session::{AuthAction, AuthEvent, FlowState, Mode, Session};
use stonks_terminal::signing::AuthRequest;
use stonks_terminal::store::{AuthInMemoryStore, Store};

// 2023-11-14 17:13:20 in New York (EST); the next local midnight is
// 2023-11-15 00:00 EST, that is 05:00 UTC.
const NOW: i64 = 1_700_000_000;
const NEXT_MIDNIGHT: i64 = 1_700_024_400;
const HOUR: i64 = 3600;

fn paths() -> ConfigPaths {
    ConfigPaths {
        config_file_path: PathBuf::from("/tmp/client.yml"),
        token_cache_path: PathBuf::from("/tmp/token_cache.json"),
    }
}

fn session(mode: Mode) -> Session<AuthInMemoryStore> {
    Session::new(mode, AuthInMemoryStore::new(), paths())
}

fn consumer() -> ClientConfig {
    ClientConfig::from(Credentials::new("CK".to_string(), "CS".to_string()))
}

fn creds(key: &str, secret: &str) -> Credentials {
    Credentials::new(key.to_string(), secret.to_string())
}

fn cached(expires_at: i64, last_request_timestamp: i64) -> LocalCredsData {
    LocalCredsData {
        access_creds: creds("OLD_AT", "OLD_AS"),
        request_token_creds: creds("OLD_RT", "OLD_RS"),
        verification_code: "654321".to_string(),
        expires_at,
        last_request_timestamp,
    }
}

fn ok(body: &str) -> AuthEvent {
    AuthEvent::Response { status: 200, body: body.as_bytes().to_vec() }
}

fn sent(action: AuthAction) -> AuthRequest {
    match action {
        AuthAction::Send(req) => req,
        other => panic!("expected a request, got {:?}", other),
    }
}

fn failure(action: AuthAction) -> String {
    match action {
        AuthAction::Fail(e) => e.message,
        other => panic!("expected a failure, got {:?}", other),
    }
}

fn assert_request_token_call(req: &AuthRequest, uri: &str) {
    assert_eq!(req.method, "GET");
    assert_eq!(req.uri, uri);
    assert_eq!(req.consumer.key, "CK");
    assert_eq!(req.consumer.secret, "CS");
    assert!(req.token.is_none());
    assert_eq!(req.callback.as_deref(), Some("oob"));
    assert!(req.verifier.is_none());
}

fn stored(s: &Session<AuthInMemoryStore>, key: &str) -> Option<(String, String)> {
    s.store.get(key.to_string()).map(|c| (c.key.clone(), c.secret.clone()))
}

#[test]
fn no_cache_runs_full_flow() {
    let mut s = session(Mode::Live);
    let cfg = consumer();

    let req = sent(s.ensure_valid_session(&cfg, None, NOW));
    assert_request_token_call(&req, "https://api.etrade.com/oauth/request_token");

    let action = s.handle_event(ok("oauth_token=RT&oauth_token_secret=RS&oauth_callback_confirmed=true"), NOW);
    match action {
        AuthAction::Prompt(url) => assert_eq!(url, "https://us.etrade.com/e/t/etws/authorize?key=CK&token=RT"),
        other => panic!("expected a prompt, got {:?}", other),
    }

    let req = sent(s.handle_event(AuthEvent::VerificationCode("123456".to_string()), NOW));
    assert_eq!(req.uri, "https://api.etrade.com/oauth/access_token");
    let token = req.token.as_ref().unwrap();
    assert_eq!((token.key.as_str(), token.secret.as_str()), ("RT", "RS"));
    assert_eq!(req.verifier.as_deref(), Some("123456"));
    assert!(req.callback.is_none());
    assert_eq!(s.store.get_verification_code(), "123456");

    match s.handle_event(ok("oauth_token=AT&oauth_token_secret=AS"), NOW) {
        AuthAction::Persist(d) => {
            assert_eq!((d.access_creds.key.as_str(), d.access_creds.secret.as_str()), ("AT", "AS"));
            assert_eq!((d.request_token_creds.key.as_str(), d.request_token_creds.secret.as_str()), ("RT", "RS"));
            assert_eq!(d.verification_code, "123456");
            assert_eq!(d.expires_at, NEXT_MIDNIGHT);
            assert_eq!(d.last_request_timestamp, NOW);
        },
        other => panic!("expected a record to persist, got {:?}", other),
    }
    assert!(matches!(s.flow, FlowState::Ready));
    assert_eq!(stored(&s, "CK"), Some(("AT".to_string(), "AS".to_string())));
    assert_eq!(stored(&s, "CKrequest_token"), Some(("RT".to_string(), "RS".to_string())));
}

#[test]
fn expired_cache_runs_full_flow() {
    let mut s = session(Mode::Live);
    // Midnight at the start of today, New York time: yesterday's deadline.
    let yesterday_midnight = NEXT_MIDNIGHT - 24 * HOUR;
    let req = sent(s.ensure_valid_session(&consumer(), Some(cached(yesterday_midnight, yesterday_midnight - HOUR)), NOW));
    assert_request_token_call(&req, "https://api.etrade.com/oauth/request_token");
    assert!(matches!(s.flow, FlowState::AwaitRequestToken { .. }));
}

#[test]
fn stale_cache_is_renewed() {
    let mut s = session(Mode::Live);
    let req = sent(s.ensure_valid_session(&consumer(), Some(cached(NEXT_MIDNIGHT, NOW - 3 * HOUR)), NOW));
    assert_eq!(req.uri, "https://api.etrade.com/oauth/renew_token");
    let token = req.token.as_ref().unwrap();
    assert_eq!((token.key.as_str(), token.secret.as_str()), ("OLD_RT", "OLD_RS"));
    assert_eq!(req.verifier.as_deref(), Some("654321"));
}

#[test]
fn fresh_cache_needs_no_call() {
    let mut s = session(Mode::Live);
    let action = s.ensure_valid_session(&consumer(), Some(cached(NEXT_MIDNIGHT, NOW - 30 * 60)), NOW);
    assert!(matches!(action, AuthAction::Ready));
    assert_eq!(stored(&s, "CK"), Some(("OLD_AT".to_string(), "OLD_AS".to_string())));
    assert_eq!(stored(&s, "CKrequest_token"), Some(("OLD_RT".to_string(), "OLD_RS".to_string())));
    assert_eq!(s.store.get_verification_code(), "654321");
}

#[test]
fn renewal_window_boundary() {
    let s = session(Mode::Live);
    assert!(!s.should_renew_access_token(&cached(NEXT_MIDNIGHT, NOW - 2 * HOUR), NOW));
    assert!(s.should_renew_access_token(&cached(NEXT_MIDNIGHT, NOW - 2 * HOUR - 1), NOW));
    assert!(!s.expired_access_token(&cached(NOW, NOW - HOUR), NOW));
    assert!(s.expired_access_token(&cached(NOW - 1, NOW - HOUR), NOW));
    assert!(!s.should_renew_access_token(&cached(i64::MAX, i64::MAX), i64::MIN));
    assert!(s.should_renew_access_token(&cached(i64::MAX, i64::MIN), i64::MAX));
}

#[test]
fn rehydration_twice_changes_nothing() {
    let mut s = session(Mode::Live);
    let record = cached(NEXT_MIDNIGHT, NOW - 30 * 60);
    assert!(matches!(s.ensure_valid_session(&consumer(), Some(record.clone()), NOW), AuthAction::Ready));
    let first = (stored(&s, "CK"), stored(&s, "CKrequest_token"), s.store.get_verification_code());
    assert!(matches!(s.ensure_valid_session(&consumer(), Some(record), NOW + 60), AuthAction::Ready));
    let second = (stored(&s, "CK"), stored(&s, "CKrequest_token"), s.store.get_verification_code());
    assert_eq!(first, second);
}

#[test]
fn expired_cache_with_request_token_is_not_renewed() {
    let mut s = session(Mode::Sandbox);
    let req = sent(s.ensure_valid_session(&consumer(), Some(cached(NOW - 1, NOW - 10 * HOUR)), NOW));
    assert_request_token_call(&req, "https://apisb.etrade.com/oauth/request_token");
}

#[test]
fn failed_renewal_falls_back_to_full_flow() {
    let mut s = session(Mode::Live);
    let req = sent(s.ensure_valid_session(&consumer(), Some(cached(NEXT_MIDNIGHT, NOW - 3 * HOUR)), NOW));
    assert_eq!(req.uri, "https://api.etrade.com/oauth/renew_token");

    let req = sent(s.handle_event(AuthEvent::TransportFailed, NOW));
    assert_request_token_call(&req, "https://api.etrade.com/oauth/request_token");

    assert!(matches!(s.handle_event(ok("oauth_token=RT2&oauth_token_secret=RS2"), NOW), AuthAction::Prompt(_)));
    let req = sent(s.handle_event(AuthEvent::VerificationCode("777".to_string()), NOW));
    assert_eq!(req.uri, "https://api.etrade.com/oauth/access_token");
    match s.handle_event(ok("oauth_token=AT2&oauth_token_secret=AS2"), NOW) {
        AuthAction::Persist(d) => {
            assert_eq!(d.access_creds.key, "AT2");
            assert_eq!(d.verification_code, "777");
        },
        other => panic!("expected a record to persist, got {:?}", other),
    }
    assert_eq!(stored(&s, "CK"), Some(("AT2".to_string(), "AS2".to_string())));
}

#[test]
fn renewal_refused_by_server_falls_back_too() {
    let mut s = session(Mode::Live);
    s.ensure_valid_session(&consumer(), Some(cached(NEXT_MIDNIGHT, NOW - 3 * HOUR)), NOW);
    let action = s.handle_event(AuthEvent::Response { status: 401, body: b"oauth_problem=token_rejected".to_vec() }, NOW);
    assert_request_token_call(&sent(action), "https://api.etrade.com/oauth/request_token");
}

#[test]
fn renewal_success_persists_new_access_token() {
    let mut s = session(Mode::Live);
    s.ensure_valid_session(&consumer(), Some(cached(NEXT_MIDNIGHT, NOW - 3 * HOUR)), NOW);
    match s.handle_event(ok("oauth_token=NEW_AT&oauth_token_secret=NEW_AS"), NOW) {
        AuthAction::Persist(d) => {
            assert_eq!(d.access_creds.key, "NEW_AT");
            assert_eq!(d.request_token_creds.key, "OLD_RT");
            assert_eq!(d.verification_code, "654321");
            assert_eq!(d.expires_at, NEXT_MIDNIGHT);
        },
        other => panic!("expected a record to persist, got {:?}", other),
    }
}

#[test]
fn request_token_failure_is_an_error() {
    let mut s = session(Mode::Live);
    s.ensure_valid_session(&consumer(), None, NOW);
    assert_eq!(failure(s.handle_event(AuthEvent::Response { status: 500, body: vec![] }, NOW)), "request_token failed");
    assert!(matches!(s.flow, FlowState::Failed));

    let mut s = session(Mode::Live);
    s.ensure_valid_session(&consumer(), None, NOW);
    assert_eq!(failure(s.handle_event(ok("oauth_token=only"), NOW)), "request_token failed");

    let mut s = session(Mode::Live);
    s.ensure_valid_session(&consumer(), None, NOW);
    assert_eq!(failure(s.handle_event(AuthEvent::TransportFailed, NOW)), "request_token failed");
}

#[test]
fn access_token_failure_in_full_flow_is_an_error() {
    let mut s = session(Mode::Live);
    s.ensure_valid_session(&consumer(), None, NOW);
    s.handle_event(ok("oauth_token=RT&oauth_token_secret=RS"), NOW);
    s.handle_event(AuthEvent::VerificationCode("1".to_string()), NOW);
    assert_eq!(failure(s.handle_event(AuthEvent::TransportFailed, NOW)), "access_token failed");
}

#[test]
fn unreadable_verification_code_is_an_error() {
    let mut s = session(Mode::Live);
    s.ensure_valid_session(&consumer(), None, NOW);
    s.handle_event(ok("oauth_token=RT&oauth_token_secret=RS"), NOW);
    assert_eq!(failure(s.handle_event(AuthEvent::PromptFailed, NOW)), "verification code could not be read");
}

#[test]
fn unexpected_event_changes_nothing() {
    let mut s = session(Mode::Live);
    assert_eq!(failure(s.handle_event(AuthEvent::TransportFailed, NOW)), "unexpected event");
    assert!(matches!(s.flow, FlowState::Idle));
    s.ensure_valid_session(&consumer(), None, NOW);
    assert_eq!(failure(s.handle_event(AuthEvent::VerificationCode("1".to_string()), NOW)), "unexpected event");
    assert!(matches!(s.flow, FlowState::AwaitRequestToken { .. }));
}

#[test]
fn token_expiry_follows_daylight_saving() {
    // 2024-07-03 05:46:40 in New York (EDT): the deadline is 2024-07-04 04:00 UTC.
    let now = 1_720_000_000;
    let mut s = session(Mode::Live);
    s.ensure_valid_session(&consumer(), None, now);
    s.handle_event(ok("oauth_token=RT&oauth_token_secret=RS"), now);
    s.handle_event(AuthEvent::VerificationCode("1".to_string()), now);
    match s.handle_event(ok("oauth_token=AT&oauth_token_secret=AS"), now) {
        AuthAction::Persist(d) => assert_eq!(d.expires_at, 1_720_065_600),
        other => panic!("expected a record to persist, got {:?}", other),
    }
}

#[test]
fn hydrate_local_store_loads_the_record() {
    let mut s = session(Mode::Live);
    s.hydrate_local_store(&consumer(), &cached(NEXT_MIDNIGHT, NOW));
    assert_eq!(stored(&s, "CK"), Some(("OLD_AT".to_string(), "OLD_AS".to_string())));
    assert_eq!(stored(&s, "CKrequest_token"), Some(("OLD_RT".to_string(), "OLD_RS".to_string())));
    assert_eq!(s.store.get_verification_code(), "654321");
}

#[test]
fn store_put_overwrites_and_delete_removes() {
    let mut store = AuthInMemoryStore::new();
    store.put("a".to_string(), creds("1", "x"));
    store.put("b".to_string(), creds("2", "y"));
    store.put("a".to_string(), creds("3", "z"));
    assert_eq!(store.get("a".to_string()).map(|c| c.key.clone()), Some("3".to_string()));
    store.delete("a".to_string());
    assert!(store.get("a".to_string()).is_none());
    assert_eq!(store.get("b".to_string()).map(|c| c.key.clone()), Some("2".to_string()));
    store.set_verification_code("v".to_string());
    assert_eq!(store.get_verification_code(), "v");
}

#[test]
fn business_requests_use_the_stored_access_token() {
    let mut s = session(Mode::Live);
    let cfg = consumer();
    assert!(s.access_request(&cfg, "GET", "https://api.etrade.com/v1/accounts/list", vec![]).is_none());
    s.ensure_valid_session(&cfg, Some(cached(NEXT_MIDNIGHT, NOW - 60)), NOW);
    let req = s.access_request(&cfg, "GET", "https://api.etrade.com/v1/accounts/list", vec![]).unwrap();
    assert_eq!(req.uri, "https://api.etrade.com/v1/accounts/list");
    let token = req.token.as_ref().unwrap();
    assert_eq!((token.key.as_str(), token.secret.as_str()), ("OLD_AT", "OLD_AS"));
    assert!(req.authorization().contains("oauth_token=\"OLD_AT\""));
}
