use stonks_terminal::credentials::Credentials;
use stonks_terminal::signing::AuthRequest;

fn request() -> AuthRequest {
    AuthRequest {
        method: "GET".to_string(),
        uri: "https://api.etrade.com/oauth/access_token".to_string(),
        consumer: Credentials::new("CK".to_string(), "CS".to_string()),
        token: Some(Credentials::new("RT".to_string(), "RS".to_string())),
        callback: None,
        verifier: Some("123456".to_string()),
        params: vec![],
    }
}

fn keys_of(header: &str) -> Vec<String> {
    header
        .trim_start_matches("OAuth ")
        .split(',')
        .map(|p| p.split('=').next().unwrap().to_string())
        .collect()
}

fn signature_of(header: &str) -> String {
    header.split("oauth_signature=").nth(1).unwrap().to_string()
}

#[test]
fn same_nonce_and_time_give_identical_headers() {
    let a = request().authorization_at("abc123", 1_700_000_000);
    let b = request().authorization_at("abc123", 1_700_000_000);
    assert_eq!(a, b);
    assert!(a.starts_with("OAuth "));
    assert!(a.contains("oauth_nonce=\"abc123\""));
    assert!(a.contains("oauth_timestamp=\"1700000000\""));
    assert!(a.contains("oauth_token=\"RT\""));
    assert!(a.contains("oauth_verifier=\"123456\""));
    assert!(a.contains("oauth_signature_method=\"HMAC-SHA1\""));
}

#[test]
fn another_nonce_changes_the_signature_but_not_the_shape() {
    let a = request().authorization_at("abc123", 1_700_000_000);
    let b = request().authorization_at("xyz789", 1_700_000_000);
    assert_ne!(signature_of(&a), signature_of(&b));
    assert_eq!(keys_of(&a), keys_of(&b));
}

#[test]
fn request_token_call_signs_without_token() {
    let mut req = request();
    req.token = None;
    req.verifier = None;
    req.callback = Some("oob".to_string());
    let h = req.authorization();
    assert!(h.starts_with("OAuth "));
    assert!(h.contains("oauth_callback=\"oob\""));
    assert!(h.contains("oauth_consumer_key=\"CK\""));
    assert!(!h.contains("oauth_token="));
}

#[test]
fn form_parameters_are_signed_in_sorted_order() {
    let mut a = request();
    a.params = vec![("instType".to_string(), "BROKERAGE".to_string()), ("realTimeNAV".to_string(), "true".to_string())];
    let mut b = request();
    b.params = vec![("realTimeNAV".to_string(), "true".to_string()), ("instType".to_string(), "BROKERAGE".to_string())];
    let plain = request().authorization_at("abc123", 1_700_000_000);
    let ha = a.authorization_at("abc123", 1_700_000_000);
    let hb = b.authorization_at("abc123", 1_700_000_000);
    assert_eq!(ha, hb);
    assert_ne!(signature_of(&ha), signature_of(&plain));
    assert_eq!(keys_of(&ha), keys_of(&plain));
}
