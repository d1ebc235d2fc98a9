use vstd::prelude::*;

verus! {

/// Default access token lifetime in seconds (24 hours).
pub const DEFAULT_TOKEN_TTL_SECS: u64 = 86400;

/// How long an MCP refresh token is kept, in seconds (7 days).
pub const REFRESH_TOKEN_TTL_SECS: u64 = 604800;

pub open spec fn is_digit(c: char) -> bool {
    '0' <= c && c <= '9'
}

/// The value of a nonempty run of decimal digits (most significant first).
pub open spec fn digits_value(s: Seq<char>) -> int
    decreases s.len(),
{
    if s.len() == 0 {
        0
    } else {
        digits_value(s.drop_last()) * 10 + (s.last() as int - '0' as int)
    }
}

pub open spec fn all_digits(s: Seq<char>) -> bool {
    s.len() > 0 && forall|i: int| 0 <= i < s.len() ==> is_digit(#[trigger] s[i])
}

/// The integer a decimal numeral denotes: digits with an optional leading
/// `+` (or `-` when `signed`), as `str::parse` reads integers; `None` for
/// anything else.
pub open spec fn numeral_value(s: Seq<char>, signed: bool) -> Option<int> {
    if s.len() > 0 && s[0] == '+' {
        if all_digits(s.skip(1)) { Some(digits_value(s.skip(1))) } else { None }
    } else if signed && s.len() > 0 && s[0] == '-' {
        if all_digits(s.skip(1)) { Some(-digits_value(s.skip(1))) } else { None }
    } else if all_digits(s) {
        Some(digits_value(s))
    } else {
        None
    }
}

/// `s.parse::<u64>()`: the value when `s` is a numeral in range; otherwise
/// the standard library's error message (its text left unsaid).
#[verifier::external_body]
pub(crate) fn parse_u64(s: &str) -> (r: Result<u64, String>)
    ensures
        match r {
            Ok(v) => numeral_value(s@, false) == Some(v as int),
            Err(_) => !(numeral_value(s@, false) matches Some(n) && 0 <= n <= u64::MAX),
        },
{
    s.parse::<u64>().map_err(|e| e.to_string())
}

/// `s.parse::<i64>()`: the value when `s` is a numeral in range; otherwise
/// the standard library's error message (its text left unsaid).
#[verifier::external_body]
pub(crate) fn parse_i64(s: &str) -> (r: Result<i64, String>)
    ensures
        match r {
            Ok(v) => numeral_value(s@, true) == Some(v as int),
            Err(_) => !(numeral_value(s@, true) matches Some(n) && i64::MIN <= n <= i64::MAX),
        },
{
    s.parse::<i64>().map_err(|e| e.to_string())
}

/// The access token lifetime configured by `HMCP_TOKEN_TTL` (its value, when
/// set): the number of seconds it reads as, or 24 hours when it is unset or
/// not a valid `u64`.
pub fn access_token_ttl(setting: Option<&str>) -> (r: u64)
    ensures
        match setting {
            Some(v) => match numeral_value(v@, false) {
                Some(n) => if 0 <= n <= u64::MAX { r == n } else { r == DEFAULT_TOKEN_TTL_SECS },
                None => r == DEFAULT_TOKEN_TTL_SECS,
            },
            None => r == DEFAULT_TOKEN_TTL_SECS,
        },
{
    match setting {
        Some(v) => match parse_u64(v) {
            Ok(n) => n,
            Err(_) => DEFAULT_TOKEN_TTL_SECS,
        },
        None => DEFAULT_TOKEN_TTL_SECS,
    }
}

/// The creation time (Unix seconds) before which a token has expired:
/// `now - ttl`. Lifetimes beyond `i64`, or cutoffs below its range, would
/// overflow, so they are left out.
pub fn cutoff_secs(now_secs: i64, ttl_secs: u64) -> (r: i64)
    requires
        ttl_secs <= i64::MAX,
        now_secs - ttl_secs >= i64::MIN,
    ensures
        r == now_secs - ttl_secs,
{
    now_secs - (ttl_secs as i64)
}

} // verus!
