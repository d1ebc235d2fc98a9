use vstd::prelude::*;
use vstd::string::StringSliceAdditionalSpecFns;
use subtle::ConstantTimeEq;

use crate::text::{chars_of, concat_str, extend_chars, str_eq, string_of};

verus! {

/// Open SSE sessions one MCP token may hold.
pub const MAX_SESSIONS_PER_TOKEN: usize = 5;

/// Open SSE sessions the server holds in all.
pub const MAX_TOTAL_SESSIONS: usize = 1000;

/// SSE requests one session may make per minute.
pub const MAX_REQUESTS_PER_MINUTE: u32 = 100;

/// How long a session lives (24 hours, ns).
pub const SESSION_TTL_NANOS: u64 = 86_400_000_000_000;

/// How long a dynamically registered client is kept (30 days, ns).
pub const REGISTERED_CLIENT_TTL_NANOS: u64 = 2_592_000_000_000_000;

// ---------------------------------------------------------------------------
// Public base URL
// ---------------------------------------------------------------------------

fn chars_have_prefix(v: &Vec<char>, p: &Vec<char>) -> (r: bool)
    ensures
        r == p@.is_prefix_of(v@),
{
    if p.len() > v.len() {
        return false;
    }
    let mut i: usize = 0;
    while i < p.len()
        invariant
            p@.len() <= v@.len(),
            0 <= i <= p@.len(),
            forall|j: int| 0 <= j < i ==> p@[j] == v@[j],
        decreases p@.len() - i,
    {
        if p[i] != v[i] {
            proof {
                assert(v@.subrange(0, p@.len() as int)[i as int] == v@[i as int]);
            }
            return false;
        }
        i = i + 1;
    }
    proof {
        assert(p@ =~= v@.subrange(0, p@.len() as int));
    }
    true
}

/// The characters of `s` before its first `c` (all of `s` when there is none).
pub open spec fn before_first(s: Seq<char>, c: char) -> Seq<char>
    decreases s.len(),
{
    if s.len() == 0 {
        s
    } else if s[0] == c {
        Seq::empty()
    } else {
        seq![s[0]] + before_first(s.drop_first(), c)
    }
}

/// The host (and port) of an `https://` or `http://` URL: what follows the
/// scheme, up to the first `/`; `None` for any other URL.
pub open spec fn url_host(url: Seq<char>) -> Option<Seq<char>> {
    if "https://"@.is_prefix_of(url) {
        Some(before_first(url.skip(8), '/'))
    } else if "http://"@.is_prefix_of(url) {
        Some(before_first(url.skip(7), '/'))
    } else {
        None
    }
}

/// The index of the first known URL whose host is `host`.
pub open spec fn first_with_host(known: Seq<String>, host: Seq<char>, from: int) -> Option<int>
    decreases known.len() - from,
{
    if from < 0 || from >= known.len() {
        None
    } else if url_host(known[from]@) == Some(host) {
        Some(from)
    } else {
        first_with_host(known, host, from + 1)
    }
}

/// The base URL the server presents itself under. With configured public
/// URLs, the first whose host is the request's `Host` (missing reads as
/// empty), or else the first one; without them, the forwarded scheme (only
/// `http` or `https`, default `https`) and the `Host` header (default
/// `localhost`).
pub open spec fn spec_derive_base_url(
    host: Option<Seq<char>>,
    forwarded_proto: Option<Seq<char>>,
    known: Seq<String>,
) -> Seq<char> {
    if known.len() > 0 {
        let incoming = match host {
            Some(h) => h,
            None => Seq::empty(),
        };
        match first_with_host(known, incoming, 0) {
            Some(i) => known[i]@,
            None => known[0]@,
        }
    } else {
        let scheme = match forwarded_proto {
            Some(p) => if p == "http"@ || p == "https"@ {
                p
            } else {
                "https"@
            },
            None => "https"@,
        };
        let h = match host {
            Some(h) => h,
            None => "localhost"@,
        };
        scheme + "://"@ + h
    }
}

proof fn lemma_first_with_host_in_range(known: Seq<String>, host: Seq<char>, from: int)
    ensures
        first_with_host(known, host, from) matches Some(i) ==> 0 <= i < known.len(),
    decreases known.len() - from,
{
    if 0 <= from < known.len() && url_host(known[from]@) != Some(host) {
        lemma_first_with_host_in_range(known, host, from + 1);
    }
}

/// Law: when public URLs are configured, the base URL the server presents
/// (in OAuth metadata, redirects and challenges) is always one of them,
/// whatever `Host` or `X-Forwarded-Proto` a request claims.
pub proof fn lemma_base_url_is_configured(
    host: Option<Seq<char>>,
    forwarded_proto: Option<Seq<char>>,
    known: Seq<String>,
)
    requires
        known.len() > 0,
    ensures
        exists|i: int|
            0 <= i < known.len() && #[trigger] known[i]@ == spec_derive_base_url(host, forwarded_proto, known),
{
    let incoming = match host {
        Some(h) => h,
        None => Seq::<char>::empty(),
    };
    lemma_first_with_host_in_range(known, incoming, 0);
    match first_with_host(known, incoming, 0) {
        Some(i) => {
            assert(known[i]@ == spec_derive_base_url(host, forwarded_proto, known));
        },
        None => {
            assert(known[0]@ == spec_derive_base_url(host, forwarded_proto, known));
        },
    }
}

fn before_first_exec(v: &Vec<char>, from: usize, c: char) -> (r: Vec<char>)
    requires
        from <= v@.len(),
    ensures
        r@ == before_first(v@.skip(from as int), c),
{
    let mut out: Vec<char> = Vec::new();
    let mut i: usize = from;
    proof {
        assert(out@ + before_first(v@.skip(from as int), c) =~= before_first(v@.skip(from as int), c));
    }
    while i < v.len() && v[i] != c
        invariant
            from <= i <= v@.len(),
            before_first(v@.skip(from as int), c) == out@ + before_first(v@.skip(i as int), c),
        decreases v@.len() - i,
    {
        proof {
            assert(v@.skip(i as int).drop_first() =~= v@.skip(i + 1));
            assert(out@.push(v@[i as int]) + before_first(v@.skip(i + 1), c) =~= out@ + (seq![v@[i as int]]
                + before_first(v@.skip(i + 1), c)));
        }
        out.push(v[i]);
        i = i + 1;
    }
    proof {
        if i == v@.len() {
            assert(v@.skip(i as int) =~= Seq::<char>::empty());
        } else {
            assert(v@.skip(i as int)[0] == c);
        }
        assert(out@ + Seq::<char>::empty() =~= out@);
    }
    out
}

fn url_host_exec(url: &str) -> (r: Option<Vec<char>>)
    ensures
        match url_host(url@) {
            Some(h) => r matches Some(v) && v@ == h,
            None => r is None,
        },
{
    let v = chars_of(url);
    let https = chars_of("https://");
    let http = chars_of("http://");
    proof {
        reveal_strlit("https://");
        reveal_strlit("http://");
    }
    if chars_have_prefix(&v, &https) {
        Some(before_first_exec(&v, 8, '/'))
    } else if chars_have_prefix(&v, &http) {
        Some(before_first_exec(&v, 7, '/'))
    } else {
        None
    }
}

fn vec_eq(a: &Vec<char>, b: &Vec<char>) -> (r: bool)
    ensures
        r == (a@ == b@),
{
    let same = a.len() == b.len() && chars_have_prefix(a, b);
    proof {
        if same {
            assert(a@ =~= b@);
        }
    }
    same
}

/// Resolves the public base URL for a request from its `Host` and
/// `X-Forwarded-Proto` headers (`None` when absent or not visible ASCII)
/// and the configured public URLs.
pub fn derive_base_url(host: Option<&str>, forwarded_proto: Option<&str>, known_urls: &Vec<String>) -> (r: String)
    ensures
        r@ == spec_derive_base_url(
            match host { Some(h) => Some(h@), None => None },
            match forwarded_proto { Some(p) => Some(p@), None => None },
            known_urls@,
        ),
{
    if known_urls.len() > 0 {
        let incoming = match host {
            Some(h) => chars_of(h),
            None => Vec::new(),
        };
        let ghost hv = incoming@;
        proof {
            assert(hv == match host { Some(h) => h@, None => Seq::<char>::empty() });
        }
        let mut i: usize = 0;
        while i < known_urls.len()
            invariant
                0 < known_urls@.len(),
                0 <= i <= known_urls@.len(),
                incoming@ == hv,
                hv == match host { Some(h) => h@, None => Seq::<char>::empty() },
                first_with_host(known_urls@, hv, 0) == first_with_host(known_urls@, hv, i as int),
            decreases known_urls@.len() - i,
        {
            let url = &known_urls[i];
            match url_host_exec(url.as_str()) {
                Some(h) => {
                    if vec_eq(&h, &incoming) {
                        proof {
                            assert(first_with_host(known_urls@, hv, i as int) == Some(i as int));
                        }
                        let r = url.clone();
                        proof {
                            assert(r@ == known_urls@[i as int]@);
                            assert(spec_derive_base_url(
                                match host { Some(h) => Some(h@), None => None },
                                match forwarded_proto { Some(p) => Some(p@), None => None },
                                known_urls@,
                            ) == known_urls@[i as int]@);
                        }
                        return r;
                    }
                },
                None => {},
            }
            i = i + 1;
        }
        return known_urls[0].clone();
    }
    let scheme = match forwarded_proto {
        Some(p) => if str_eq(p, "http") || str_eq(p, "https") {
            p
        } else {
            "https"
        },
        None => "https",
    };
    let h = match host {
        Some(h) => h,
        None => "localhost",
    };
    let mut v: Vec<char> = Vec::new();
    extend_chars(&mut v, scheme);
    extend_chars(&mut v, "://");
    extend_chars(&mut v, h);
    string_of(&v)
}

// ---------------------------------------------------------------------------
// Credentials
// ---------------------------------------------------------------------------

/// `subtle::ConstantTimeEq::ct_eq` on byte slices, read as a `bool`: true
/// exactly when the slices are equal (it returns 0 at once on different
/// lengths, and compares every byte otherwise).
#[verifier::external_body]
fn ct_eq_bytes(a: &[u8], b: &[u8]) -> (r: bool)
    ensures
        r == (a@ == b@),
{
    a.ct_eq(b).into()
}

/// Compares two secrets without an early exit on the first differing byte.
pub fn constant_time_eq(a: &str, b: &str) -> (r: bool)
    ensures
        r == (a@ == b@),
{
    let x = a.as_bytes();
    let y = b.as_bytes();
    proof {
        vstd::utf8::encode_utf8_decode_utf8(a@);
        vstd::utf8::encode_utf8_decode_utf8(b@);
    }
    if x.len() != y.len() {
        return false;
    }
    ct_eq_bytes(x, y)
}

/// The bearer token of an `Authorization` header value: what follows
/// `"Bearer "`, or `None` when the value does not start with it.
pub fn bearer_token(authorization: Option<&str>) -> (r: Option<String>)
    ensures
        match authorization {
            None => r is None,
            Some(a) => if "Bearer "@.is_prefix_of(a@) {
                r matches Some(t) && t@ == a@.skip(7)
            } else {
                r is None
            },
        },
{
    proof {
        reveal_strlit("Bearer ");
    }
    match authorization {
        None => None,
        Some(a) => {
            let v = chars_of(a);
            let p = chars_of("Bearer ");
            if chars_have_prefix(&v, &p) {
                let mut out: Vec<char> = Vec::new();
                let mut i: usize = 7;
                while i < v.len()
                    invariant
                        7 <= i <= v@.len(),
                        out@ == v@.subrange(7, i as int),
                    decreases v@.len() - i,
                {
                    out.push(v[i]);
                    proof {
                        assert(v@.subrange(7, i + 1) =~= v@.subrange(7, i as int).push(v@[i as int]));
                    }
                    i = i + 1;
                }
                proof {
                    assert(v@.subrange(7, v@.len() as int) =~= v@.skip(7));
                }
                Some(string_of(&out))
            } else {
                None
            }
        },
    }
}

/// The `WWW-Authenticate` challenge that points a client at the resource
/// metadata: `Bearer resource_metadata="{base}/.well-known/oauth-protected-resource"`.
pub fn www_authenticate(base_url: &str) -> (r: String)
    ensures
        r@ == "Bearer resource_metadata=\""@ + base_url@ + "/.well-known/oauth-protected-resource\""@,
{
    let mut v: Vec<char> = Vec::new();
    extend_chars(&mut v, "Bearer resource_metadata=\"");
    extend_chars(&mut v, base_url);
    extend_chars(&mut v, "/.well-known/oauth-protected-resource\"");
    string_of(&v)
}

// ---------------------------------------------------------------------------
// Session admission and expiry
// ---------------------------------------------------------------------------

/// Why a new SSE session is refused.
#[derive(Debug)]
pub enum SessionRefusal {
    /// 503: the server holds `MAX_TOTAL_SESSIONS` sessions.
    TooManySessions,
    /// 429: this token holds `MAX_SESSIONS_PER_TOKEN` sessions.
    TooManyForToken,
}

/// Admission of a new session given how many the server holds and how many
/// of them belong to the requesting token.
pub open spec fn spec_admit_session(total: nat, for_token: nat) -> Result<(), SessionRefusal> {
    if total >= MAX_TOTAL_SESSIONS {
        Err(SessionRefusal::TooManySessions)
    } else if for_token >= MAX_SESSIONS_PER_TOKEN {
        Err(SessionRefusal::TooManyForToken)
    } else {
        Ok(())
    }
}

/// How many entries of `tokens` equal `token`.
pub open spec fn count_token(tokens: Seq<String>, token: Seq<char>) -> nat
    decreases tokens.len(),
{
    if tokens.len() == 0 {
        0
    } else {
        count_token(tokens.drop_last(), token) + if tokens.last()@ == token { 1nat } else { 0nat }
    }
}

/// Decides whether a new session may open, from the MCP tokens of the open
/// sessions and the requesting token (compared in constant time).
pub fn admit_session(open_tokens: &Vec<String>, token: &str) -> (r: Result<(), SessionRefusal>)
    ensures
        r == spec_admit_session(open_tokens@.len(), count_token(open_tokens@, token@)),
{
    if open_tokens.len() >= MAX_TOTAL_SESSIONS {
        return Err(SessionRefusal::TooManySessions);
    }
    let mut n: usize = 0;
    let mut i: usize = 0;
    while i < open_tokens.len()
        invariant
            0 <= i <= open_tokens@.len(),
            n == count_token(open_tokens@.take(i as int), token@),
            n <= i,
        decreases open_tokens@.len() - i,
    {
        proof {
            let t = open_tokens@.take(i + 1);
            assert(t.drop_last() =~= open_tokens@.take(i as int));
            assert(t.last() == open_tokens@[i as int]);
        }
        if constant_time_eq(open_tokens[i].as_str(), token) {
            n = n + 1;
        }
        i = i + 1;
    }
    proof {
        assert(open_tokens@.take(i as int) =~= open_tokens@);
    }
    if n >= MAX_SESSIONS_PER_TOKEN {
        return Err(SessionRefusal::TooManyForToken);
    }
    Ok(())
}

/// Law: admitting a session keeps every cap: with the new session the
/// server holds at most `MAX_TOTAL_SESSIONS` sessions and the requesting
/// token at most `MAX_SESSIONS_PER_TOKEN`.
pub proof fn lemma_admission_keeps_caps(open_tokens: Seq<String>, token: String)
    requires
        spec_admit_session(open_tokens.len(), count_token(open_tokens, token@)) is Ok,
    ensures
        open_tokens.push(token).len() <= MAX_TOTAL_SESSIONS,
        count_token(open_tokens.push(token), token@) <= MAX_SESSIONS_PER_TOKEN,
{
    assert(open_tokens.push(token).drop_last() =~= open_tokens);
}

/// Whether something created at `created_at` is younger than `ttl` at time
/// `now` (monotonic nanoseconds; a clock reading before creation counts as
/// no time passed).
pub open spec fn spec_is_fresh(created_at: u64, now: u64, ttl: u64) -> bool {
    crate::rate::elapsed(now, created_at) < ttl
}

pub fn is_fresh(created_at: u64, now: u64, ttl: u64) -> (r: bool)
    ensures
        r == spec_is_fresh(created_at, now, ttl),
{
    let el = if now >= created_at { now - created_at } else { 0 };
    el < ttl
}

/// An SSE session is kept while its channel is open and it is at most
/// `SESSION_TTL` old.
pub fn session_is_live(channel_closed: bool, created_at: u64, now: u64) -> (r: bool)
    ensures
        r == (!channel_closed && crate::rate::elapsed(now, created_at) <= SESSION_TTL_NANOS),
{
    let el = if now >= created_at { now - created_at } else { 0 };
    !channel_closed && el <= SESSION_TTL_NANOS
}

/// The message endpoint announced to a new SSE session.
pub fn endpoint_url(session_id: &str) -> (r: String)
    ensures
        r@ == "/mcp/messages/?sessionId="@ + session_id@,
{
    concat_str("/mcp/messages/?sessionId=", session_id)
}

} // verus!
