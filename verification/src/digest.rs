use vstd::prelude::*;
use vstd::string::StringSliceAdditionalSpecFns;
use base64::Engine;
use sha2::Digest;
use vstd::utf8::encode_utf8;

use crate::text::hex_lower;

verus! {

/// The SHA-256 digest of a byte string, as `sha2::Sha256` computes it.
pub uninterp spec fn sha256_spec(data: Seq<u8>) -> Seq<u8>;

/// The Base64 digit for a 6-bit value: `A`-`Z`, `a`-`z`, `0`-`9`, then `+`
/// and `/` (standard alphabet) or `-` and `_` (URL-safe alphabet).
pub open spec fn base64_digit(v: int, url_safe: bool) -> char {
    if v < 26 {
        ('A' as int + v) as char
    } else if v < 52 {
        ('a' as int + (v - 26)) as char
    } else if v < 62 {
        ('0' as int + (v - 52)) as char
    } else if v == 62 {
        if url_safe { '-' } else { '+' }
    } else {
        if url_safe { '_' } else { '/' }
    }
}

/// Base64 of a byte string: each group of three bytes becomes four digits;
/// a final group of one or two bytes becomes two or three digits, followed
/// by `=` padding to four when `padded`.
pub open spec fn base64_encoded(data: Seq<u8>, url_safe: bool, padded: bool) -> Seq<char>
    decreases data.len(),
{
    if data.len() == 0 {
        Seq::empty()
    } else if data.len() == 1 {
        let b0 = data[0] as int;
        seq![base64_digit(b0 / 4, url_safe), base64_digit((b0 % 4) * 16, url_safe)]
            + if padded { seq!['=', '='] } else { Seq::empty() }
    } else if data.len() == 2 {
        let b0 = data[0] as int;
        let b1 = data[1] as int;
        seq![
            base64_digit(b0 / 4, url_safe),
            base64_digit((b0 % 4) * 16 + b1 / 16, url_safe),
            base64_digit((b1 % 16) * 4, url_safe),
        ] + if padded { seq!['='] } else { Seq::empty() }
    } else {
        let b0 = data[0] as int;
        let b1 = data[1] as int;
        let b2 = data[2] as int;
        seq![
            base64_digit(b0 / 4, url_safe),
            base64_digit((b0 % 4) * 16 + b1 / 16, url_safe),
            base64_digit((b1 % 16) * 4 + b2 / 64, url_safe),
            base64_digit(b2 % 64, url_safe),
        ] + base64_encoded(data.skip(3), url_safe, padded)
    }
}

/// The standard-alphabet, padded Base64 text of a byte string, as
/// `base64::engine::general_purpose::STANDARD` writes it.
pub open spec fn base64_std_encoded(data: Seq<u8>) -> Seq<char> {
    base64_encoded(data, false, true)
}

/// What `STANDARD.decode` yields for a text: the bytes, or `None` when the
/// text is not canonical padded Base64.
pub uninterp spec fn base64_std_decoded(text: Seq<u8>) -> Option<Seq<u8>>;

/// The URL-safe, unpadded Base64 text of a byte string, as
/// `base64::engine::general_purpose::URL_SAFE_NO_PAD` writes it.
pub open spec fn base64_url_nopad_encoded(data: Seq<u8>) -> Seq<char> {
    base64_encoded(data, true, false)
}

/// What `URL_SAFE_NO_PAD.decode` yields for a text: the bytes, or `None`
/// when the text is not canonical unpadded URL-safe Base64.
pub uninterp spec fn base64_url_nopad_decoded(text: Seq<u8>) -> Option<Seq<u8>>;

/// `sha2::Sha256::digest`: the result is the named digest, 32 bytes long
/// (the crate's output size for SHA-256).
#[verifier::external_body]
pub(crate) fn sha256(data: &[u8]) -> (r: Vec<u8>)
    ensures
        r@ == sha256_spec(data@),
        r@.len() == 32,
{
    sha2::Sha256::digest(data).to_vec()
}

/// Base64 output for `n` input bytes fits in a `usize` (otherwise the
/// engines panic computing the buffer size).
pub open spec fn base64_len_fits(n: nat) -> bool {
    (n + 2) / 3 * 4 <= usize::MAX
}

/// `STANDARD.encode`: the Base64 text above, which `STANDARD.decode` turns
/// back into the input bytes (the engine decodes what it encodes).
/// Encoding only panics when the output length overflows `usize`, which
/// `requires` rules out.
#[verifier::external_body]
pub(crate) fn base64_std_encode(data: &[u8]) -> (r: String)
    requires
        base64_len_fits(data@.len()),
    ensures
        r@ == base64_std_encoded(data@),
        base64_std_decoded(encode_utf8(r@)) == Some(data@),
{
    base64::engine::general_purpose::STANDARD.encode(data)
}

/// `STANDARD.decode`: the bytes of the named decoding, or the crate's error
/// message when the text is not valid padded Base64. The text of that
/// message is left unsaid.
#[verifier::external_body]
pub(crate) fn base64_std_decode(text: &str) -> (r: Result<Vec<u8>, String>)
    ensures
        match r {
            Ok(v) => base64_std_decoded(text.spec_bytes()) == Some(v@),
            Err(_) => base64_std_decoded(text.spec_bytes()) is None,
        },
{
    base64::engine::general_purpose::STANDARD.decode(text).map_err(|e| e.to_string())
}

/// `URL_SAFE_NO_PAD.encode`: the URL-safe, unpadded Base64 text above.
#[verifier::external_body]
pub(crate) fn base64_url_nopad_encode(data: &[u8]) -> (r: String)
    requires
        base64_len_fits(data@.len()),
    ensures
        r@ == base64_url_nopad_encoded(data@),
{
    base64::engine::general_purpose::URL_SAFE_NO_PAD.encode(data)
}

/// Lowercase hex of the SHA-256 digest of the UTF-8 bytes of `input`.
pub fn sha256_hex(input: &str) -> (r: String)
    ensures
        r@ == hex_lower(sha256_spec(input.spec_bytes())),
{
    let digest = sha256(input.as_bytes());
    crate::hex::encode(digest.as_slice())
}

/// `URL_SAFE_NO_PAD.decode`: the bytes of the named decoding, or `None`
/// where the crate refuses the text.
#[verifier::external_body]
pub(crate) fn base64_url_nopad_decode(text: &str) -> (r: Option<Vec<u8>>)
    ensures
        match r {
            Some(v) => base64_url_nopad_decoded(text.spec_bytes()) == Some(v@),
            None => base64_url_nopad_decoded(text.spec_bytes()) is None,
        },
{
    base64::engine::general_purpose::URL_SAFE_NO_PAD.decode(text).ok()
}

} // verus!
