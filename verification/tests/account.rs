use splatoonbot::config::Credentials;
use splatoonbot::mastodon::{login_url, post_form, statuses_url, Mastodon};

fn credentials() -> Credentials {
    Credentials {
        client_id: "abc".to_string(),
        client_secret: "SECRET-REDACTED".to_string(),
        instance_uri: "https://mastodon.example".to_string(),
        auth_code: Some("tok".to_string()),
    }
}

fn pairs(v: &[(&str, &str)]) -> Vec<(String, String)> {
    v.iter().map(|(a, b)| (a.to_string(), b.to_string())).collect()
}

#[test]
fn new_account_waits_for_a_token() {
    let m = Mastodon::new("the-code".to_string());
    assert_eq!(m.authn_token, None);
    assert_eq!(m.auth_code, "the-code");
    assert!(!m.authed);
}

#[test]
fn account_with_token_is_authorized() {
    let m = Mastodon::new_with_auth("tok".to_string());
    assert_eq!(m.authn_token, Some("tok".to_string()));
    assert_eq!(m.auth_code, "");
    assert!(m.authed);
    assert_eq!(m.authorization_header(), "Bearer tok");
}

#[test]
fn login_records_the_token() {
    let mut m = Mastodon::new("the-code".to_string());
    m.complete_login("fresh".to_string());
    assert_eq!(m.authn_token, Some("fresh".to_string()));
    assert!(m.authed);
    assert_eq!(m.auth_code, "the-code");
    assert_eq!(m.authorization_header(), "Bearer fresh");
}

#[test]
fn token_exchange_request() {
    let m = Mastodon::new("the-code".to_string());
    assert_eq!(login_url(&credentials()), "https://mastodon.example/oauth/token");
    assert_eq!(
        m.login_form(&credentials()),
        pairs(&[
            ("client_id", "abc"),
            ("client_secret", "SECRET-REDACTED"),
            ("redirect_uri", "urn:ietf:wg:oauth:2.0:oob"),
            ("grant_type", "authorization_code"),
            ("code", "the-code"),
            ("scope", "read write follow push"),
        ])
    );
}

#[test]
fn post_request() {
    assert_eq!(statuses_url(&credentials()), "https://mastodon.example/api/v1/statuses");
    assert_eq!(post_form("hello\nworld"), pairs(&[("status", "hello\nworld"), ("visibility", "public")]));
}
