use vstd::prelude::*;
use vstd::string::StringSliceAdditionalSpecFns;
use vstd::utf8::encode_utf8;

use crate::digest::{base64_url_nopad_encode, base64_url_nopad_encoded, sha256, sha256_spec};
use crate::text::{concat_str, extend_chars, starts_with, str_eq, string_of};
use crate::urlencoding::{encode, encode_bytes};
use crate::catalog::{json_str, push_member};
use crate::json::{JsonEntry, JsonModel, JsonValue, model};

verus! {

/// How long an issued MCP authorization code stays redeemable (5 minutes, ns).
pub const AUTH_CODE_TTL_NANOS: u64 = 300_000_000_000;

/// How long a pending HaloPSA login is remembered (10 minutes, ns).
pub const PENDING_AUTH_TTL_NANOS: u64 = 600_000_000_000;

/// MCP auth code: issued after HaloPSA OAuth completes.
pub struct AuthCode {
    pub code_challenge: Option<String>,
    pub code_challenge_method: Option<String>,
    pub redirect_uri: String,
    pub client_id: String,
    pub halo_access_token: Option<String>,
    pub halo_refresh_token: Option<String>,
    /// Monotonic-clock reading (ns) when the code was issued.
    pub created_at: u64,
}

/// A client that has completed dynamic registration (POST /register).
/// /authorize checks its redirect_uri against this record, so a completed
/// login can only be sent back to a URI the client registered.
pub struct RegisteredClient {
    pub redirect_uris: Vec<String>,
    /// Monotonic-clock reading (ns) when the client registered.
    pub created_at: u64,
}

/// Pending OAuth authorization: tracks state between /authorize, HaloPSA
/// and /callback.
pub struct PendingAuth {
    pub mcp_code_challenge: Option<String>,
    pub mcp_code_challenge_method: Option<String>,
    pub mcp_redirect_uri: String,
    pub mcp_client_id: String,
    pub mcp_state: Option<String>,
    /// Our own PKCE verifier for the HaloPSA leg.
    pub halo_code_verifier: String,
    /// Monotonic-clock reading (ns) when the login started.
    pub created_at: u64,
}

/// Query parameters of GET /authorize.
pub struct AuthorizeParams {
    pub response_type: String,
    pub client_id: String,
    pub redirect_uri: String,
    pub state: Option<String>,
    pub code_challenge: Option<String>,
    pub code_challenge_method: Option<String>,
}

/// Query parameters of GET /callback.
pub struct CallbackParams {
    pub code: String,
    pub state: String,
}

/// Form of POST /token.
pub struct TokenForm {
    pub grant_type: String,
    pub code: Option<String>,
    pub client_id: Option<String>,
    pub client_secret: Option<String>,
    pub code_verifier: Option<String>,
    pub redirect_uri: Option<String>,
    pub refresh_token: Option<String>,
}

/// Every refusal the OAuth endpoints answer with.
#[derive(Debug)]
pub enum OAuthError {
    RateLimited,
    UnsupportedResponseType,
    CodeChallengeRequired,
    UnknownClient,
    RedirectUriMismatch,
    InvalidState,
    TokenExchangeFailed(String),
    HaloAuthFailed,
    TokenResponseUnreadable(String),
    NoAccessToken,
    UnsupportedGrantType,
    CodeRequired,
    InvalidGrant,
    VerifierRequired,
    OnlyS256,
    PkceFailed,
    StorageFailed(String),
    RefreshTokenRequired,
    DbError(String),
    NoHaloRefreshToken,
    HaloRefreshFailed,
    RegisterRateLimited,
    RedirectUrisRequired,
    InvalidRedirectUri,
}

/// The HTTP status each refusal is answered with.
pub open spec fn spec_status(e: OAuthError) -> u16 {
    match e {
        OAuthError::RateLimited | OAuthError::RegisterRateLimited => 429,
        OAuthError::TokenExchangeFailed(_) | OAuthError::HaloAuthFailed
        | OAuthError::TokenResponseUnreadable(_) | OAuthError::NoAccessToken => 502,
        OAuthError::StorageFailed(_) | OAuthError::DbError(_) => 500,
        _ => 400,
    }
}

/// The `error` field of each refusal's body (for `RateLimited`, the whole
/// plain-text body).
pub open spec fn spec_error_code(e: OAuthError) -> Seq<char> {
    match e {
        OAuthError::RateLimited => "Rate limited"@,
        OAuthError::UnsupportedResponseType => "unsupported_response_type"@,
        OAuthError::CodeChallengeRequired => "invalid_request"@,
        OAuthError::UnknownClient => "invalid_client"@,
        OAuthError::RedirectUriMismatch => "invalid_request"@,
        OAuthError::InvalidState => "Invalid or expired state"@,
        OAuthError::TokenExchangeFailed(m) => "Token exchange failed: "@ + m@,
        OAuthError::HaloAuthFailed => "HaloPSA authentication failed"@,
        OAuthError::TokenResponseUnreadable(m) => "Failed to parse token response: "@ + m@,
        OAuthError::NoAccessToken => "No access_token from HaloPSA"@,
        OAuthError::UnsupportedGrantType => "unsupported_grant_type"@,
        OAuthError::CodeRequired => "invalid_request"@,
        OAuthError::InvalidGrant => "invalid_grant"@,
        OAuthError::VerifierRequired => "invalid_request"@,
        OAuthError::OnlyS256 => "invalid_request"@,
        OAuthError::PkceFailed => "invalid_grant"@,
        OAuthError::StorageFailed(m) => "Token storage failed: "@ + m@,
        OAuthError::RefreshTokenRequired => "invalid_request"@,
        OAuthError::DbError(m) => "DB error: "@ + m@,
        OAuthError::NoHaloRefreshToken => "invalid_grant"@,
        OAuthError::HaloRefreshFailed => "invalid_grant"@,
        OAuthError::RegisterRateLimited => "rate_limited"@,
        OAuthError::RedirectUrisRequired => "invalid_client_metadata"@,
        OAuthError::InvalidRedirectUri => "invalid_redirect_uri"@,
    }
}

/// The `error_description` field, for the refusals that carry one.
pub open spec fn spec_error_description(e: OAuthError) -> Option<Seq<char>> {
    match e {
        OAuthError::CodeChallengeRequired => Some("code_challenge is required"@),
        OAuthError::UnknownClient => Some("Unknown client_id \u{2014} call POST /register first"@),
        OAuthError::RedirectUriMismatch => Some(
            "redirect_uri does not match a registered value for this client_id"@,
        ),
        OAuthError::CodeRequired => Some("code required"@),
        OAuthError::VerifierRequired => Some("code_verifier required"@),
        OAuthError::OnlyS256 => Some("Only S256 supported"@),
        OAuthError::PkceFailed => Some("PKCE verification failed"@),
        OAuthError::RefreshTokenRequired => Some("refresh_token required"@),
        OAuthError::NoHaloRefreshToken => Some(
            "No HaloPSA refresh token available; re-authorization required"@,
        ),
        OAuthError::HaloRefreshFailed => Some(
            "HaloPSA token refresh failed; re-authorization required"@,
        ),
        OAuthError::RedirectUrisRequired => Some("redirect_uris is required"@),
        OAuthError::InvalidRedirectUri => Some(
            "redirect_uris must be https:// (or http://localhost for local development)"@,
        ),
        _ => None,
    }
}

impl OAuthError {
    /// The HTTP status of the reply.
    pub fn status(&self) -> (r: u16)
        ensures
            r == spec_status(*self),
    {
        match self {
            OAuthError::RateLimited | OAuthError::RegisterRateLimited => 429,
            OAuthError::TokenExchangeFailed(_) | OAuthError::HaloAuthFailed
            | OAuthError::TokenResponseUnreadable(_) | OAuthError::NoAccessToken => 502,
            OAuthError::StorageFailed(_) | OAuthError::DbError(_) => 500,
            _ => 400,
        }
    }

    /// The `error` field of the reply.
    pub fn error_code(&self) -> (r: String)
        ensures
            r@ == spec_error_code(*self),
    {
        match self {
            OAuthError::RateLimited => "Rate limited".to_owned(),
            OAuthError::UnsupportedResponseType => "unsupported_response_type".to_owned(),
            OAuthError::CodeChallengeRequired => "invalid_request".to_owned(),
            OAuthError::UnknownClient => "invalid_client".to_owned(),
            OAuthError::RedirectUriMismatch => "invalid_request".to_owned(),
            OAuthError::InvalidState => "Invalid or expired state".to_owned(),
            OAuthError::TokenExchangeFailed(m) => concat_str("Token exchange failed: ", m.as_str()),
            OAuthError::HaloAuthFailed => "HaloPSA authentication failed".to_owned(),
            OAuthError::TokenResponseUnreadable(m) => concat_str(
                "Failed to parse token response: ",
                m.as_str(),
            ),
            OAuthError::NoAccessToken => "No access_token from HaloPSA".to_owned(),
            OAuthError::UnsupportedGrantType => "unsupported_grant_type".to_owned(),
            OAuthError::CodeRequired => "invalid_request".to_owned(),
            OAuthError::InvalidGrant => "invalid_grant".to_owned(),
            OAuthError::VerifierRequired => "invalid_request".to_owned(),
            OAuthError::OnlyS256 => "invalid_request".to_owned(),
            OAuthError::PkceFailed => "invalid_grant".to_owned(),
            OAuthError::StorageFailed(m) => concat_str("Token storage failed: ", m.as_str()),
            OAuthError::RefreshTokenRequired => "invalid_request".to_owned(),
            OAuthError::DbError(m) => concat_str("DB error: ", m.as_str()),
            OAuthError::NoHaloRefreshToken => "invalid_grant".to_owned(),
            OAuthError::HaloRefreshFailed => "invalid_grant".to_owned(),
            OAuthError::RegisterRateLimited => "rate_limited".to_owned(),
            OAuthError::RedirectUrisRequired => "invalid_client_metadata".to_owned(),
            OAuthError::InvalidRedirectUri => "invalid_redirect_uri".to_owned(),
        }
    }

    /// The `error_description` field of the reply, if it has one.
    pub fn description(&self) -> (r: Option<String>)
        ensures
            match spec_error_description(*self) {
                Some(d) => r matches Some(s) && s@ == d,
                None => r is None,
            },
    {
        match self {
            OAuthError::CodeChallengeRequired => Some("code_challenge is required".to_owned()),
            OAuthError::UnknownClient => Some(
                "Unknown client_id \u{2014} call POST /register first".to_owned(),
            ),
            OAuthError::RedirectUriMismatch => Some(
                "redirect_uri does not match a registered value for this client_id".to_owned(),
            ),
            OAuthError::CodeRequired => Some("code required".to_owned()),
            OAuthError::VerifierRequired => Some("code_verifier required".to_owned()),
            OAuthError::OnlyS256 => Some("Only S256 supported".to_owned()),
            OAuthError::PkceFailed => Some("PKCE verification failed".to_owned()),
            OAuthError::RefreshTokenRequired => Some("refresh_token required".to_owned()),
            OAuthError::NoHaloRefreshToken => Some(
                "No HaloPSA refresh token available; re-authorization required".to_owned(),
            ),
            OAuthError::HaloRefreshFailed => Some(
                "HaloPSA token refresh failed; re-authorization required".to_owned(),
            ),
            OAuthError::RedirectUrisRequired => Some("redirect_uris is required".to_owned()),
            OAuthError::InvalidRedirectUri => Some(
                "redirect_uris must be https:// (or http://localhost for local development)".to_owned(),
            ),
            _ => None,
        }
    }
}

/// Whether `uri` is one of `uris`.
pub open spec fn uri_listed(uris: Seq<String>, uri: Seq<char>) -> bool {
    exists|i: int| 0 <= i < uris.len() && #[trigger] uris[i]@ == uri
}

/// The answer /authorize owes to a request (before the rate limit, which
/// is checked first): the response type must be `code`, a PKCE challenge is
/// mandatory, and the redirect URI must be one the client registered.
pub open spec fn spec_check_authorize(params: AuthorizeParams, client: Option<RegisteredClient>) -> Result<
    (),
    OAuthError,
> {
    if params.response_type@ != "code"@ {
        Err(OAuthError::UnsupportedResponseType)
    } else if params.code_challenge is None {
        Err(OAuthError::CodeChallengeRequired)
    } else {
        match client {
            None => Err(OAuthError::UnknownClient),
            Some(c) => if uri_listed(c.redirect_uris@, params.redirect_uri@) {
                Ok(())
            } else {
                Err(OAuthError::RedirectUriMismatch)
            },
        }
    }
}

fn list_has(uris: &Vec<String>, uri: &str) -> (r: bool)
    ensures
        r == uri_listed(uris@, uri@),
{
    let mut i: usize = 0;
    while i < uris.len()
        invariant
            0 <= i <= uris@.len(),
            forall|j: int| 0 <= j < i ==> uris@[j]@ != uri@,
        decreases uris@.len() - i,
    {
        if str_eq(uris[i].as_str(), uri) {
            return true;
        }
        i = i + 1;
    }
    false
}

/// Validates an authorization request against the registered client with
/// the requested `client_id` (`None` when no such client registered).
pub fn check_authorize(params: &AuthorizeParams, client: Option<&RegisteredClient>) -> (r: Result<
    (),
    OAuthError,
>)
    ensures
        r == spec_check_authorize(*params, match client {
            Some(c) => Some(*c),
            None => None,
        }),
{
    if !str_eq(params.response_type.as_str(), "code") {
        return Err(OAuthError::UnsupportedResponseType);
    }
    if params.code_challenge.is_none() {
        return Err(OAuthError::CodeChallengeRequired);
    }
    match client {
        None => Err(OAuthError::UnknownClient),
        Some(c) => if list_has(&c.redirect_uris, params.redirect_uri.as_str()) {
            Ok(())
        } else {
            Err(OAuthError::RedirectUriMismatch)
        },
    }
}

/// The PKCE S256 challenge of a verifier: unpadded URL-safe Base64 of the
/// SHA-256 digest of its UTF-8 bytes.
pub open spec fn spec_pkce_challenge(verifier: Seq<u8>) -> Seq<char> {
    base64_url_nopad_encoded(sha256_spec(verifier))
}

/// Computes the PKCE S256 challenge of `verifier`.
pub fn pkce_challenge(verifier: &str) -> (r: String)
    ensures
        r@ == spec_pkce_challenge(verifier.spec_bytes()),
{
    let digest = sha256(verifier.as_bytes());
    base64_url_nopad_encode(digest.as_slice())
}

/// The HaloPSA authorize URL for our own leg of the login, with every
/// parameter percent-encoded and the tenant appended for hosted instances.
pub open spec fn spec_halo_authorize_url(
    halo_url: Seq<char>,
    client_id: Seq<u8>,
    callback_url: Seq<u8>,
    challenge: Seq<u8>,
    state: Seq<u8>,
    tenant: Option<Seq<u8>>,
) -> Seq<char> {
    halo_url + "/auth/authorize?response_type=code&client_id="@ + encode_bytes(client_id)
        + "&redirect_uri="@ + encode_bytes(callback_url) + "&code_challenge="@ + encode_bytes(
        challenge,
    ) + "&code_challenge_method=S256&scope=all&state="@ + encode_bytes(state) + match tenant {
        Some(t) => "&tenant="@ + encode_bytes(t),
        None => Seq::empty(),
    }
}

/// Builds the HaloPSA authorize URL the user is redirected to.
pub fn halo_authorize_url(
    halo_url: &str,
    client_id: &str,
    callback_url: &str,
    challenge: &str,
    state: &str,
    tenant: Option<&str>,
) -> (r: String)
    ensures
        r@ == spec_halo_authorize_url(
            halo_url@,
            client_id.spec_bytes(),
            callback_url.spec_bytes(),
            challenge.spec_bytes(),
            state.spec_bytes(),
            match tenant {
                Some(t) => Some(t.spec_bytes()),
                None => None,
            },
        ),
{
    let mut v: Vec<char> = Vec::new();
    extend_chars(&mut v, halo_url);
    extend_chars(&mut v, "/auth/authorize?response_type=code&client_id=");
    extend_chars(&mut v, encode(client_id).as_str());
    extend_chars(&mut v, "&redirect_uri=");
    extend_chars(&mut v, encode(callback_url).as_str());
    extend_chars(&mut v, "&code_challenge=");
    extend_chars(&mut v, encode(challenge).as_str());
    extend_chars(&mut v, "&code_challenge_method=S256&scope=all&state=");
    extend_chars(&mut v, encode(state).as_str());
    let ghost before = v@;
    match tenant {
        Some(t) => {
            extend_chars(&mut v, "&tenant=");
            extend_chars(&mut v, encode(t).as_str());
        },
        None => {},
    }
    proof {
        assert(v@ =~= spec_halo_authorize_url(
            halo_url@,
            client_id.spec_bytes(),
            callback_url.spec_bytes(),
            challenge.spec_bytes(),
            state.spec_bytes(),
            match tenant {
                Some(t) => Some(t.spec_bytes()),
                None => None,
            },
        ));
    }
    string_of(&v)
}

/// `"{base_url}/callback"`, the redirect URI of our HaloPSA leg.
pub fn callback_url(base_url: &str) -> (r: String)
    ensures
        r@ == base_url@ + "/callback"@,
{
    concat_str(base_url, "/callback")
}

/// Where the MCP client is sent after a completed login: its redirect URI
/// with our code (and its own state, when it sent one) as query parameters.
pub open spec fn spec_client_redirect(redirect_uri: Seq<char>, code: Seq<u8>, state: Option<Seq<u8>>) -> Seq<char> {
    redirect_uri + "?code="@ + encode_bytes(code) + match state {
        Some(s) => "&state="@ + encode_bytes(s),
        None => Seq::empty(),
    }
}

/// Builds the redirect back to the MCP client.
pub fn client_redirect_url(redirect_uri: &str, code: &str, state: Option<&str>) -> (r: String)
    ensures
        r@ == spec_client_redirect(
            redirect_uri@,
            code.spec_bytes(),
            match state {
                Some(s) => Some(s.spec_bytes()),
                None => None,
            },
        ),
{
    let mut v: Vec<char> = Vec::new();
    extend_chars(&mut v, redirect_uri);
    extend_chars(&mut v, "?code=");
    extend_chars(&mut v, encode(code).as_str());
    match state {
        Some(s) => {
            extend_chars(&mut v, "&state=");
            extend_chars(&mut v, encode(s).as_str());
        },
        None => {},
    }
    proof {
        assert(v@ =~= spec_client_redirect(
            redirect_uri@,
            code.spec_bytes(),
            match state {
                Some(s) => Some(s.spec_bytes()),
                None => None,
            },
        ));
    }
    string_of(&v)
}

/// The HaloPSA tokens taken from a token-endpoint reply: the access token
/// must be present and non-empty; a missing refresh token reads as empty.
pub open spec fn spec_halo_tokens(access: Option<Seq<char>>, refresh: Option<Seq<char>>) -> Result<
    (Seq<char>, Seq<char>),
    OAuthError,
> {
    let at = match access {
        Some(a) => a,
        None => Seq::empty(),
    };
    let rt = match refresh {
        Some(r) => r,
        None => Seq::empty(),
    };
    if at.len() == 0 {
        Err(OAuthError::NoAccessToken)
    } else {
        Ok((at, rt))
    }
}

/// Reads the tokens HaloPSA returned at /callback (`access_token`,
/// `refresh_token` fields, when they are strings).
pub fn halo_tokens(access: Option<&str>, refresh: Option<&str>) -> (r: Result<(String, String), OAuthError>)
    ensures
        match spec_halo_tokens(
            match access { Some(a) => Some(a@), None => None },
            match refresh { Some(x) => Some(x@), None => None },
        ) {
            Ok((at, rt)) => r matches Ok((a, b)) && a@ == at && b@ == rt,
            Err(e) => r == Err::<(String, String), OAuthError>(e),
        },
{
    let at = match access {
        Some(a) => a.to_owned(),
        None => String::new(),
    };
    let rt = match refresh {
        Some(x) => x.to_owned(),
        None => String::new(),
    };
    if at.as_str().as_bytes().len() == 0 {
        proof {
            crate::text::lemma_blen_ge_len(at@);
        }
        return Err(OAuthError::NoAccessToken);
    }
    proof {
        if at@.len() == 0 {
            assert(at@ =~= Seq::<char>::empty());
        }
    }
    Ok((at, rt))
}

/// The two grants POST /token serves.
#[derive(Debug)]
pub enum GrantKind {
    AuthorizationCode,
    RefreshToken,
}

/// Routes a token request by its `grant_type`.
pub fn grant_kind(grant_type: &str) -> (r: Result<GrantKind, OAuthError>)
    ensures
        r == (if grant_type@ == "authorization_code"@ {
            Ok(GrantKind::AuthorizationCode)
        } else if grant_type@ == "refresh_token"@ {
            Ok(GrantKind::RefreshToken)
        } else {
            Err(OAuthError::UnsupportedGrantType)
        }),
{
    if str_eq(grant_type, "authorization_code") {
        Ok(GrantKind::AuthorizationCode)
    } else if str_eq(grant_type, "refresh_token") {
        Ok(GrantKind::RefreshToken)
    } else {
        Err(OAuthError::UnsupportedGrantType)
    }
}

/// The code an authorization-code request redeems (`code` is required).
pub fn code_to_redeem(form: &TokenForm) -> (r: Result<String, OAuthError>)
    ensures
        match form.code {
            Some(c) => r == Ok::<String, OAuthError>(c),
            None => r == Err::<String, OAuthError>(OAuthError::CodeRequired),
        },
{
    match &form.code {
        Some(c) => Ok(c.clone()),
        None => Err(OAuthError::CodeRequired),
    }
}

/// The PKCE check on redeeming an authorization code: a code issued with a
/// challenge needs a verifier, only the S256 method (the default) is
/// accepted, and the verifier's challenge must equal the stored one.
pub open spec fn spec_check_pkce(code: AuthCode, verifier: Option<Seq<u8>>) -> Result<(), OAuthError> {
    match code.code_challenge {
        None => Ok(()),
        Some(ch) => match verifier {
            None => Err(OAuthError::VerifierRequired),
            Some(v) => {
                let method = match code.code_challenge_method {
                    Some(m) => m@,
                    None => "S256"@,
                };
                if method != "S256"@ {
                    Err(OAuthError::OnlyS256)
                } else if spec_pkce_challenge(v) != ch@ {
                    Err(OAuthError::PkceFailed)
                } else {
                    Ok(())
                }
            },
        },
    }
}

/// The outcome of redeeming an authorization code: the stored code (`None`
/// when unknown, used or expired) must pass the PKCE check; then its HaloPSA
/// tokens (empty when absent) are what the new MCP tokens stand for.
pub open spec fn spec_redeem_code(found: Option<AuthCode>, verifier: Option<Seq<u8>>) -> Result<
    (Seq<char>, Seq<char>),
    OAuthError,
> {
    match found {
        None => Err(OAuthError::InvalidGrant),
        Some(c) => match spec_check_pkce(c, verifier) {
            Err(e) => Err(e),
            Ok(()) => Ok(
                (
                    match c.halo_access_token {
                        Some(t) => t@,
                        None => Seq::empty(),
                    },
                    match c.halo_refresh_token {
                        Some(t) => t@,
                        None => Seq::empty(),
                    },
                ),
            ),
        },
    }
}

/// Redeems an authorization code (already removed from the store, `None`
/// when it was not there) with the request's `code_verifier`.
pub fn redeem_code(found: Option<&AuthCode>, form: &TokenForm) -> (r: Result<(String, String), OAuthError>)
    ensures
        match spec_redeem_code(
            match found { Some(c) => Some(*c), None => None },
            match form.code_verifier { Some(v) => Some(encode_utf8(v@)), None => None },
        ) {
            Ok((at, rt)) => r matches Ok((a, b)) && a@ == at && b@ == rt,
            Err(e) => r == Err::<(String, String), OAuthError>(e),
        },
{
    let code = match found {
        None => {
            return Err(OAuthError::InvalidGrant);
        },
        Some(c) => c,
    };
    match &code.code_challenge {
        None => {},
        Some(challenge) => {
            let verifier = match &form.code_verifier {
                None => {
                    return Err(OAuthError::VerifierRequired);
                },
                Some(v) => v,
            };
            let method_ok = match &code.code_challenge_method {
                Some(m) => str_eq(m.as_str(), "S256"),
                None => true,
            };
            if !method_ok {
                return Err(OAuthError::OnlyS256);
            }
            let computed = pkce_challenge(verifier.as_str());
            if !str_eq(computed.as_str(), challenge.as_str()) {
                return Err(OAuthError::PkceFailed);
            }
        },
    }
    let at = match &code.halo_access_token {
        Some(t) => t.clone(),
        None => String::new(),
    };
    let rt = match &code.halo_refresh_token {
        Some(t) => t.clone(),
        None => String::new(),
    };
    Ok((at, rt))
}

/// Law: a client that redeems its code with the verifier whose S256
/// challenge it sent at /authorize passes the PKCE check.
pub proof fn lemma_pkce_accepts_own_verifier(code: AuthCode, verifier: Seq<u8>)
    requires
        code.code_challenge matches Some(c) && c@ == spec_pkce_challenge(verifier),
        code.code_challenge_method matches Some(m) ==> m@ == "S256"@,
    ensures
        spec_check_pkce(code, Some(verifier)) == Ok::<(), OAuthError>(()),
{
}

/// Law: the PKCE check only passes a code issued with a challenge when the
/// verifier presented hashes to that very challenge.
pub proof fn lemma_pkce_sound(code: AuthCode, verifier: Option<Seq<u8>>)
    requires
        code.code_challenge is Some,
        spec_check_pkce(code, verifier) is Ok,
    ensures
        verifier matches Some(v) && spec_pkce_challenge(v) == code.code_challenge->0@,
{
}

/// The refresh token a refresh-grant request presents (required).
pub fn refresh_token_to_look_up(form: &TokenForm) -> (r: Result<String, OAuthError>)
    ensures
        match form.refresh_token {
            Some(t) => r == Ok::<String, OAuthError>(t),
            None => r == Err::<String, OAuthError>(OAuthError::RefreshTokenRequired),
        },
{
    match &form.refresh_token {
        Some(t) => Ok(t.clone()),
        None => Err(OAuthError::RefreshTokenRequired),
    }
}

/// What to do after looking up a presented MCP refresh token.
#[derive(Debug)]
pub enum RefreshPlan {
    /// Refuse; when `delete_old` holds, first delete the presented token.
    Reject { delete_old: bool, error: OAuthError },
    /// Refresh the stored HaloPSA token with HaloPSA.
    CallHalo { halo_refresh_token: String },
}

/// The plan after looking up a refresh token: a storage error is a 500, an
/// unknown token is `invalid_grant`, and a record without a HaloPSA refresh
/// token is dropped and refused (the old access token is never reused).
pub open spec fn spec_plan_refresh(lookup: Result<Option<(String, String)>, String>) -> RefreshPlan {
    match lookup {
        Err(e) => RefreshPlan::Reject { delete_old: false, error: OAuthError::DbError(e) },
        Ok(None) => RefreshPlan::Reject { delete_old: false, error: OAuthError::InvalidGrant },
        Ok(Some((_at, rt))) => if rt@.len() == 0 {
            RefreshPlan::Reject { delete_old: true, error: OAuthError::NoHaloRefreshToken }
        } else {
            RefreshPlan::CallHalo { halo_refresh_token: rt }
        },
    }
}

pub fn plan_refresh(lookup: Result<Option<(String, String)>, String>) -> (r: RefreshPlan)
    ensures
        r == spec_plan_refresh(lookup),
{
    match lookup {
        Err(e) => RefreshPlan::Reject { delete_old: false, error: OAuthError::DbError(e) },
        Ok(None) => RefreshPlan::Reject { delete_old: false, error: OAuthError::InvalidGrant },
        Ok(Some((_at, rt))) => {
            proof {
                crate::text::lemma_blen_ge_len(rt@);
                if rt@.len() == 0 {
                    assert(rt@ =~= Seq::<char>::empty());
                }
            }
            if rt.as_str().as_bytes().len() == 0 {
                RefreshPlan::Reject { delete_old: true, error: OAuthError::NoHaloRefreshToken }
            } else {
                RefreshPlan::CallHalo { halo_refresh_token: rt }
            }
        },
    }
}

/// After asking HaloPSA to refresh: the presented MCP refresh token is
/// deleted either way; new MCP tokens are issued for exactly the fresh
/// HaloPSA tokens, and a failed refresh is `invalid_grant`, never a token
/// wrapping the old HaloPSA credentials.
pub fn after_halo_refresh(result: Result<(String, String), String>) -> (r: Result<(String, String), OAuthError>)
    ensures
        match result {
            Ok(pair) => r == Ok::<(String, String), OAuthError>(pair),
            Err(_) => r == Err::<(String, String), OAuthError>(OAuthError::HaloRefreshFailed),
        },
{
    match result {
        Ok(pair) => Ok(pair),
        Err(_) => Err(OAuthError::HaloRefreshFailed),
    }
}

/// Reads HaloPSA's reply to a refresh: `access_token` is required
/// ("No access_token" otherwise); a missing `refresh_token` reads as empty.
pub fn parse_halo_refresh(access: Option<&str>, refresh: Option<&str>) -> (r: Result<(String, String), String>)
    ensures
        match access {
            None => r matches Err(e) && e@ == "No access_token"@,
            Some(a) => r matches Ok((x, y)) && x@ == a@ && y@ == match refresh {
                Some(t) => t@,
                None => Seq::empty(),
            },
        },
{
    let at = match access {
        None => {
            return Err("No access_token".to_owned());
        },
        Some(a) => a.to_owned(),
    };
    let rt = match refresh {
        Some(t) => t.to_owned(),
        None => String::new(),
    };
    Ok((at, rt))
}

/// A byte that ends the host part of a URI: `:` (a port follows), `/`,
/// `?` or `#`.
pub open spec fn ends_host(b: u8) -> bool {
    b == 0x3A || b == 0x2F || b == 0x3F || b == 0x23
}

/// `uri` is `prefix` (scheme and host) followed by nothing, or by a byte
/// that ends the host.
pub open spec fn has_exact_host(uri: Seq<u8>, prefix: Seq<u8>) -> bool {
    &&& prefix.is_prefix_of(uri)
    &&& (uri.len() == prefix.len() || ends_host(uri[prefix.len() as int]))
}

/// A redirect URI a client may register: `https://`, or plain `http://`
/// whose host is exactly a loopback host (`localhost`, `127.0.0.1`,
/// `[::1]`), optionally with a port, path, query or fragment. A redirect
/// may not travel over plaintext http to any other host.
pub open spec fn spec_redirect_uri_allowed(uri: Seq<u8>) -> bool {
    ||| "https://".spec_bytes().is_prefix_of(uri)
    ||| has_exact_host(uri, "http://localhost".spec_bytes())
    ||| has_exact_host(uri, "http://127.0.0.1".spec_bytes())
    ||| has_exact_host(uri, "http://[::1]".spec_bytes())
}

/// Whether `uri` starts with `prefix` and its host ends right there.
fn exact_host(uri: &str, prefix: &str) -> (r: bool)
    ensures
        r == has_exact_host(uri.spec_bytes(), prefix.spec_bytes()),
{
    if !starts_with(uri, prefix) {
        return false;
    }
    let bytes = uri.as_bytes();
    let n = prefix.as_bytes().len();
    if bytes.len() == n {
        return true;
    }
    let b = bytes[n];
    b == 0x3A || b == 0x2F || b == 0x3F || b == 0x23
}

/// Whether `uri` may be registered as a redirect URI.
pub fn redirect_uri_allowed(uri: &str) -> (r: bool)
    ensures
        r == spec_redirect_uri_allowed(uri.spec_bytes()),
{
    let https = starts_with(uri, "https://");
    let local = exact_host(uri, "http://localhost");
    let v4 = exact_host(uri, "http://127.0.0.1");
    let v6 = exact_host(uri, "http://[::1]");
    https || local || v4 || v6
}

/// Validates the `redirect_uris` of a registration: at least one, and every
/// one https or loopback.
pub fn validate_redirect_uris(uris: &Vec<String>) -> (r: Result<(), OAuthError>)
    ensures
        r == (if uris@.len() == 0 {
            Err(OAuthError::RedirectUrisRequired)
        } else if forall|i: int|
            0 <= i < uris@.len() ==> spec_redirect_uri_allowed(encode_utf8(#[trigger] uris@[i]@)) {
            Ok(())
        } else {
            Err(OAuthError::InvalidRedirectUri)
        }),
{
    if uris.len() == 0 {
        return Err(OAuthError::RedirectUrisRequired);
    }
    let mut i: usize = 0;
    while i < uris.len()
        invariant
            0 <= i <= uris@.len(),
            forall|j: int| 0 <= j < i ==> spec_redirect_uri_allowed(encode_utf8(#[trigger] uris@[j]@)),
        decreases uris@.len() - i,
    {
        if !redirect_uri_allowed(uris[i].as_str()) {
            return Err(OAuthError::InvalidRedirectUri);
        }
        i = i + 1;
    }
    Ok(())
}

/// The body of a successful `/token` reply: the MCP access and refresh
/// tokens, `token_type` `Bearer` and the access token's lifetime.
pub open spec fn spec_token_response(access: Seq<char>, refresh: Seq<char>, ttl: u64) -> JsonModel {
    JsonModel::Object(
        Seq::empty().push(("access_token"@, JsonModel::Str(access))).push(
            ("token_type"@, JsonModel::Str("Bearer"@)),
        ).push(("expires_in"@, JsonModel::UInt(ttl))).push(("refresh_token"@, JsonModel::Str(refresh))),
    )
}

/// Builds the body of a successful `/token` reply. Only the tokens passed in
/// appear in it: the server passes the MCP tokens it has just issued, so the
/// HaloPSA tokens never reach the client.
pub fn token_response(access: &str, refresh: &str, ttl: u64) -> (r: JsonValue)
    ensures
        model(r) == spec_token_response(access@, refresh@, ttl),
{
    let mut es: Vec<JsonEntry> = Vec::new();
    push_member(&mut es, "access_token", json_str(access));
    push_member(&mut es, "token_type", json_str("Bearer"));
    push_member(&mut es, "expires_in", JsonValue::UInt(ttl));
    push_member(&mut es, "refresh_token", json_str(refresh));
    JsonValue::Object(es)
}

} // verus!
