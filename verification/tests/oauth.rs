use halopsa_mcp::oauth::{
    after_halo_refresh, callback_url, check_authorize, client_redirect_url, code_to_redeem, grant_kind,
    halo_authorize_url, halo_tokens, parse_halo_refresh, pkce_challenge, plan_refresh, redeem_code,
    redirect_uri_allowed, refresh_token_to_look_up, validate_redirect_uris, AuthCode, AuthorizeParams,
    GrantKind, OAuthError, RefreshPlan, RegisteredClient, TokenForm,
};

fn params(response_type: &str, redirect: &str, challenge: Option<&str>) -> AuthorizeParams {
    AuthorizeParams {
        response_type: response_type.to_string(),
        client_id: "c1".to_string(),
        redirect_uri: redirect.to_string(),
        state: Some("st".to_string()),
        code_challenge: challenge.map(|c| c.to_string()),
        code_challenge_method: Some("S256".to_string()),
    }
}

fn client() -> RegisteredClient {
    RegisteredClient {
        redirect_uris: vec!["https://app.example/cb".to_string(), "http://localhost:3000/cb".to_string()],
        created_at: 0,
    }
}

fn empty_form(grant: &str) -> TokenForm {
    TokenForm {
        grant_type: grant.to_string(),
        code: None,
        client_id: None,
        client_secret: None,
        code_verifier: None,
        redirect_uri: None,
        refresh_token: None,
    }
}

const VERIFIER: &str = "dBjftJeZ4CVP-mB92K27uhbUJU1p1r_wW1gFWFOEjXk";
const CHALLENGE: &str = "E9Melhoa2OwvFrEMTJguCHaoeK1t8URWbuGJSstw-cM";

fn stored_code(challenge: Option<&str>, method: Option<&str>) -> AuthCode {
    AuthCode {
        code_challenge: challenge.map(|c| c.to_string()),
        code_challenge_method: method.map(|m| m.to_string()),
        redirect_uri: "https://app.example/cb".to_string(),
        client_id: "c1".to_string(),
        halo_access_token: Some("halo-at".to_string()),
        halo_refresh_token: None,
        created_at: 0,
    }
}

#[test]
fn authorize_checks_in_order() {
    let c = client();
    assert!(matches!(
        check_authorize(&params("token", "https://app.example/cb", Some("x")), Some(&c)),
        Err(OAuthError::UnsupportedResponseType)
    ));
    assert!(matches!(
        check_authorize(&params("code", "https://app.example/cb", None), Some(&c)),
        Err(OAuthError::CodeChallengeRequired)
    ));
    assert!(matches!(
        check_authorize(&params("code", "https://app.example/cb", Some("x")), None),
        Err(OAuthError::UnknownClient)
    ));
    assert!(matches!(
        check_authorize(&params("code", "https://evil.example/cb", Some("x")), Some(&c)),
        Err(OAuthError::RedirectUriMismatch)
    ));
    assert!(check_authorize(&params("code", "http://localhost:3000/cb", Some("x")), Some(&c)).is_ok());
}

#[test]
fn pkce_challenge_matches_rfc7636_example() {
    assert_eq!(pkce_challenge(VERIFIER), CHALLENGE);
}

#[test]
fn halo_authorize_url_encodes_every_parameter() {
    let url = halo_authorize_url(
        "https://halo.example",
        "id 1",
        "https://mcp.example/callback",
        "ch",
        "s/t",
        Some("acme"),
    );
    assert_eq!(
        url,
        "https://halo.example/auth/authorize?response_type=code&client_id=id%201&redirect_uri=https%3A%2F%2Fmcp.example%2Fcallback&code_challenge=ch&code_challenge_method=S256&scope=all&state=s%2Ft&tenant=acme"
    );
    let url = halo_authorize_url("h", "c", "u", "x", "y", None);
    assert_eq!(
        url,
        "h/auth/authorize?response_type=code&client_id=c&redirect_uri=u&code_challenge=x&code_challenge_method=S256&scope=all&state=y"
    );
}

#[test]
fn redirects_back_to_the_client() {
    assert_eq!(callback_url("https://mcp.example"), "https://mcp.example/callback");
    assert_eq!(
        client_redirect_url("https://app.example/cb", "a b", Some("x&y")),
        "https://app.example/cb?code=a%20b&state=x%26y"
    );
    assert_eq!(client_redirect_url("u", "c", None), "u?code=c");
}

#[test]
fn halo_tokens_need_an_access_token() {
    assert!(matches!(halo_tokens(None, Some("r")), Err(OAuthError::NoAccessToken)));
    assert!(matches!(halo_tokens(Some(""), Some("r")), Err(OAuthError::NoAccessToken)));
    match halo_tokens(Some("a"), None) {
        Ok((a, r)) => {
            assert_eq!(a, "a");
            assert_eq!(r, "");
        }
        Err(_) => panic!("expected tokens"),
    }
}

#[test]
fn grant_types_are_routed() {
    assert!(matches!(grant_kind("authorization_code"), Ok(GrantKind::AuthorizationCode)));
    assert!(matches!(grant_kind("refresh_token"), Ok(GrantKind::RefreshToken)));
    assert!(matches!(grant_kind("password"), Err(OAuthError::UnsupportedGrantType)));
}

#[test]
fn code_and_refresh_token_are_required() {
    let mut f = empty_form("authorization_code");
    assert!(matches!(code_to_redeem(&f), Err(OAuthError::CodeRequired)));
    f.code = Some("abc".to_string());
    assert_eq!(code_to_redeem(&f).ok(), Some("abc".to_string()));
    let mut g = empty_form("refresh_token");
    assert!(matches!(refresh_token_to_look_up(&g), Err(OAuthError::RefreshTokenRequired)));
    g.refresh_token = Some("rt".to_string());
    assert_eq!(refresh_token_to_look_up(&g).ok(), Some("rt".to_string()));
}

#[test]
fn redeeming_a_code_checks_pkce() {
    let mut form = empty_form("authorization_code");
    assert!(matches!(redeem_code(None, &form), Err(OAuthError::InvalidGrant)));
    let code = stored_code(Some(CHALLENGE), None);
    assert!(matches!(redeem_code(Some(&code), &form), Err(OAuthError::VerifierRequired)));
    form.code_verifier = Some("wrong".to_string());
    assert!(matches!(redeem_code(Some(&code), &form), Err(OAuthError::PkceFailed)));
    let plain = stored_code(Some(CHALLENGE), Some("plain"));
    form.code_verifier = Some(VERIFIER.to_string());
    assert!(matches!(redeem_code(Some(&plain), &form), Err(OAuthError::OnlyS256)));
    match redeem_code(Some(&code), &form) {
        Ok((at, rt)) => {
            assert_eq!(at, "halo-at");
            assert_eq!(rt, "");
        }
        Err(e) => panic!("unexpected {e:?}"),
    }
    let s256 = stored_code(Some(CHALLENGE), Some("S256"));
    assert!(redeem_code(Some(&s256), &form).is_ok());
    // A code issued without a challenge needs no verifier.
    let bare = stored_code(None, None);
    assert!(redeem_code(Some(&bare), &empty_form("authorization_code")).is_ok());
}

#[test]
fn refresh_plans() {
    assert!(matches!(
        plan_refresh(Err("disk".to_string())),
        RefreshPlan::Reject { delete_old: false, error: OAuthError::DbError(m) } if m == "disk"
    ));
    assert!(matches!(
        plan_refresh(Ok(None)),
        RefreshPlan::Reject { delete_old: false, error: OAuthError::InvalidGrant }
    ));
    assert!(matches!(
        plan_refresh(Ok(Some(("at".to_string(), "".to_string())))),
        RefreshPlan::Reject { delete_old: true, error: OAuthError::NoHaloRefreshToken }
    ));
    assert!(matches!(
        plan_refresh(Ok(Some(("at".to_string(), "hrt".to_string())))),
        RefreshPlan::CallHalo { halo_refresh_token } if halo_refresh_token == "hrt"
    ));
}

#[test]
fn after_refresh_never_reuses_old_tokens() {
    assert!(matches!(after_halo_refresh(Err("boom".to_string())), Err(OAuthError::HaloRefreshFailed)));
    match after_halo_refresh(Ok(("a".to_string(), "b".to_string()))) {
        Ok((a, b)) => assert_eq!((a.as_str(), b.as_str()), ("a", "b")),
        Err(_) => panic!("expected tokens"),
    }
    assert_eq!(parse_halo_refresh(None, Some("r")), Err("No access_token".to_string()));
    assert_eq!(parse_halo_refresh(Some("a"), None), Ok(("a".to_string(), "".to_string())));
}

#[test]
fn redirect_uris_must_be_https_or_loopback() {
    assert!(redirect_uri_allowed("https://x.example/cb"));
    assert!(redirect_uri_allowed("http://localhost:8080/cb"));
    assert!(redirect_uri_allowed("http://127.0.0.1/cb"));
    assert!(redirect_uri_allowed("http://[::1]:9/cb"));
    assert!(!redirect_uri_allowed("http://example.com/cb"));
    assert!(!redirect_uri_allowed("javascript:alert(1)"));
    assert!(matches!(validate_redirect_uris(&vec![]), Err(OAuthError::RedirectUrisRequired)));
    assert!(matches!(
        validate_redirect_uris(&vec!["https://a".to_string(), "ftp://b".to_string()]),
        Err(OAuthError::InvalidRedirectUri)
    ));
    assert!(validate_redirect_uris(&vec!["https://a".to_string()]).is_ok());
}

#[test]
fn each_refusal_has_its_status_and_body() {
    let cases: Vec<(OAuthError, u16, &str, Option<&str>)> = vec![
        (OAuthError::RateLimited, 429, "Rate limited", None),
        (OAuthError::UnsupportedResponseType, 400, "unsupported_response_type", None),
        (OAuthError::CodeChallengeRequired, 400, "invalid_request", Some("code_challenge is required")),
        (OAuthError::UnknownClient, 400, "invalid_client", Some("Unknown client_id \u{2014} call POST /register first")),
        (OAuthError::RedirectUriMismatch, 400, "invalid_request", Some("redirect_uri does not match a registered value for this client_id")),
        (OAuthError::InvalidState, 400, "Invalid or expired state", None),
        (OAuthError::TokenExchangeFailed("t".to_string()), 502, "Token exchange failed: t", None),
        (OAuthError::HaloAuthFailed, 502, "HaloPSA authentication failed", None),
        (OAuthError::TokenResponseUnreadable("p".to_string()), 502, "Failed to parse token response: p", None),
        (OAuthError::NoAccessToken, 502, "No access_token from HaloPSA", None),
        (OAuthError::UnsupportedGrantType, 400, "unsupported_grant_type", None),
        (OAuthError::CodeRequired, 400, "invalid_request", Some("code required")),
        (OAuthError::InvalidGrant, 400, "invalid_grant", None),
        (OAuthError::VerifierRequired, 400, "invalid_request", Some("code_verifier required")),
        (OAuthError::OnlyS256, 400, "invalid_request", Some("Only S256 supported")),
        (OAuthError::PkceFailed, 400, "invalid_grant", Some("PKCE verification failed")),
        (OAuthError::StorageFailed("s".to_string()), 500, "Token storage failed: s", None),
        (OAuthError::RefreshTokenRequired, 400, "invalid_request", Some("refresh_token required")),
        (OAuthError::DbError("d".to_string()), 500, "DB error: d", None),
        (OAuthError::NoHaloRefreshToken, 400, "invalid_grant", Some("No HaloPSA refresh token available; re-authorization required")),
        (OAuthError::HaloRefreshFailed, 400, "invalid_grant", Some("HaloPSA token refresh failed; re-authorization required")),
        (OAuthError::RegisterRateLimited, 429, "rate_limited", None),
        (OAuthError::RedirectUrisRequired, 400, "invalid_client_metadata", Some("redirect_uris is required")),
        (OAuthError::InvalidRedirectUri, 400, "invalid_redirect_uri", Some("redirect_uris must be https:// (or http://localhost for local development)")),
    ];
    for (e, status, code, desc) in cases {
        assert_eq!(e.status(), status, "{e:?}");
        assert_eq!(e.error_code(), code, "{e:?}");
        assert_eq!(e.description().as_deref(), desc, "{e:?}");
    }
}

#[test]
fn plaintext_redirects_need_an_exact_loopback_host() {
    assert!(!redirect_uri_allowed("http://localhost.evil.com/cb"));
    assert!(!redirect_uri_allowed("http://127.0.0.1.evil.com/cb"));
    assert!(!redirect_uri_allowed("http://localhostx/cb"));
    assert!(!redirect_uri_allowed("http://[::1]evil/cb"));
    assert!(redirect_uri_allowed("http://localhost"));
    assert!(redirect_uri_allowed("http://localhost/cb"));
    assert!(redirect_uri_allowed("http://localhost?x=1"));
    assert!(redirect_uri_allowed("http://127.0.0.1#frag"));
    assert!(redirect_uri_allowed("https://localhost.evil.com/cb"));
    assert!(matches!(
        validate_redirect_uris(&vec!["http://localhost:3000/cb".to_string(), "http://localhost.evil.com/cb".to_string()]),
        Err(OAuthError::InvalidRedirectUri)
    ));
}

#[test]
fn token_reply_carries_the_given_tokens() {
    let r = halopsa_mcp::oauth::token_response("mcp-at", "mcp-rt", 86400);
    match r {
        halopsa_mcp::json::JsonValue::Object(es) => {
            let keys: Vec<&str> = es.iter().map(|e| e.key.as_str()).collect();
            assert_eq!(keys, vec!["access_token", "token_type", "expires_in", "refresh_token"]);
            assert!(matches!(&es[0].value, halopsa_mcp::json::JsonValue::Str(s) if s == "mcp-at"));
            assert!(matches!(&es[1].value, halopsa_mcp::json::JsonValue::Str(s) if s == "Bearer"));
            assert!(matches!(&es[2].value, halopsa_mcp::json::JsonValue::UInt(86400)));
            assert!(matches!(&es[3].value, halopsa_mcp::json::JsonValue::Str(s) if s == "mcp-rt"));
        }
        other => panic!("{:?}", other),
    }
}
