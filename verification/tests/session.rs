use halopsa_mcp::session::{
    admit_session, bearer_token, constant_time_eq, derive_base_url, endpoint_url, is_fresh,
    session_is_live, www_authenticate, SessionRefusal, SESSION_TTL_NANOS,
};

fn urls(v: &[&str]) -> Vec<String> {
    v.iter().map(|s| s.to_string()).collect()
}

#[test]
fn base_url_picks_the_configured_url_for_the_host() {
    let known = urls(&["https://a.example", "https://b.example:8443/mcp"]);
    assert_eq!(derive_base_url(Some("b.example:8443"), None, &known), "https://b.example:8443/mcp");
    assert_eq!(derive_base_url(Some("evil.example"), Some("http"), &known), "https://a.example");
    assert_eq!(derive_base_url(None, None, &known), "https://a.example");
}

#[test]
fn base_url_from_headers_without_configuration() {
    let none: Vec<String> = vec![];
    assert_eq!(derive_base_url(Some("mcp.local:3000"), Some("http"), &none), "http://mcp.local:3000");
    assert_eq!(derive_base_url(Some("h"), Some("gopher"), &none), "https://h");
    assert_eq!(derive_base_url(None, None, &none), "https://localhost");
}

#[test]
fn secrets_compare_by_content() {
    assert!(constant_time_eq("abc", "abc"));
    assert!(!constant_time_eq("abc", "abd"));
    assert!(!constant_time_eq("abc", "ab"));
    assert!(constant_time_eq("", ""));
}

#[test]
fn bearer_tokens_and_challenges() {
    assert_eq!(bearer_token(Some("Bearer tok.en")), Some("tok.en".to_string()));
    assert_eq!(bearer_token(Some("Bearer ")), Some(String::new()));
    assert_eq!(bearer_token(Some("bearer tok")), None);
    assert_eq!(bearer_token(Some("Basic x")), None);
    assert_eq!(bearer_token(None), None);
    assert_eq!(
        www_authenticate("https://m.example"),
        "Bearer resource_metadata=\"https://m.example/.well-known/oauth-protected-resource\""
    );
}

#[test]
fn sessions_are_capped_per_token_and_in_total() {
    let mut open = urls(&["t1", "t1", "t1", "t1", "t2"]);
    assert!(admit_session(&open, "t1").is_ok());
    open.push("t1".to_string());
    assert!(matches!(admit_session(&open, "t1"), Err(SessionRefusal::TooManyForToken)));
    assert!(admit_session(&open, "t2").is_ok());
    let full: Vec<String> = (0..1000).map(|i| format!("t{i}")).collect();
    assert!(matches!(admit_session(&full, "new"), Err(SessionRefusal::TooManySessions)));
}

#[test]
fn freshness_and_liveness() {
    assert!(is_fresh(100, 150, 51));
    assert!(!is_fresh(100, 150, 50));
    assert!(is_fresh(100, 50, 1));
    assert!(session_is_live(false, 0, SESSION_TTL_NANOS));
    assert!(!session_is_live(false, 0, SESSION_TTL_NANOS + 1));
    assert!(!session_is_live(true, 0, 0));
    assert_eq!(endpoint_url("abc"), "/mcp/messages/?sessionId=abc");
}
