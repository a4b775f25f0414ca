use vibes::auth::parse_redirect_request;
use vibes::auth::PkceChallenge;
use vibes::config::Config;

#[test]
fn test_parse_redirect_extracts_code_and_state() {
    let req = "GET /login?code=abc123&state=xyz HTTP/1.1\r\nHost: localhost\r\n\r\n";
    let auth = parse_redirect_request(req).expect("code should be found");
    assert_eq!(auth.code, "abc123");
    assert_eq!(auth.state, "xyz");
}

#[test]
fn test_parse_redirect_without_state_defaults_empty() {
    let req = "GET /login?code=only HTTP/1.1\r\n\r\n";
    let auth = parse_redirect_request(req).expect("code should be found");
    assert_eq!(auth.code, "only");
    assert_eq!(auth.state, "");
}

#[test]
fn test_parse_redirect_last_duplicate_wins() {
    let req = "GET /login?code=first&code=second HTTP/1.1\r\n";
    let auth = parse_redirect_request(req).expect("code should be found");
    assert_eq!(auth.code, "second");
}

#[test]
fn test_parse_redirect_without_code_is_rejected() {
    assert!(parse_redirect_request("GET /login?state=xyz HTTP/1.1\r\n").is_none());
    assert!(parse_redirect_request("GET /login HTTP/1.1\r\n").is_none());
    assert!(parse_redirect_request("").is_none());
}

#[test]
fn test_parse_redirect_ignores_later_lines() {
    let req = "GET /login?code=top HTTP/1.1\r\nX-Other: ?code=bottom\r\n";
    let auth = parse_redirect_request(req).expect("code should be found");
    assert_eq!(auth.code, "top");
}

#[test]
fn test_parse_redirect_tolerates_extra_whitespace() {
    let req = "GET  \t /login?code=ws  HTTP/1.1\r\n";
    let auth = parse_redirect_request(req).expect("code should be found");
    assert_eq!(auth.code, "ws");
}

#[test]
fn test_parse_redirect_skips_valueless_segments() {
    let req = "GET /login?flag&code=real&also HTTP/1.1\r\n";
    let auth = parse_redirect_request(req).expect("code should be found");
    assert_eq!(auth.code, "real");
}

#[test]
fn test_parse_redirect_keeps_equals_inside_value() {
    let req = "GET /login?code=a=b HTTP/1.1\r\n";
    let auth = parse_redirect_request(req).expect("code should be found");
    assert_eq!(auth.code, "a=b");
}

#[test]
fn test_pkce_challenge_is_derived_from_verifier() {
    let pkce = PkceChallenge::new();
    // 64 random octets encode to 86 unpadded base64 characters; the
    // 32-byte digest encodes to 43.
    assert_eq!(pkce.verifier.len(), 86);
    assert_eq!(pkce.challenge.len(), 43);
    assert_ne!(pkce.verifier, pkce.challenge);
    let again = PkceChallenge::new();
    assert_ne!(pkce.verifier, again.verifier);
}

#[test]
fn test_config_defaults() {
    let cfg = Config::assemble("id".to_string(), "secret".to_string(), None, None);
    assert_eq!(cfg.redirect_uri, "http://127.0.0.1:8989/login");
    assert_eq!(cfg.redis_url, "redis://127.0.0.1:6379");
    let cfg2 = Config::assemble(
        "id".to_string(),
        "secret".to_string(),
        Some("http://localhost:1234/cb".to_string()),
        Some("redis://cache:6379".to_string()),
    );
    assert_eq!(cfg2.redirect_uri, "http://localhost:1234/cb");
    assert_eq!(cfg2.redis_url, "redis://cache:6379");
}
