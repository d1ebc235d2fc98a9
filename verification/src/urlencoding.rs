use vstd::prelude::*;
use vstd::string::StringSliceAdditionalSpecFns;

use crate::text::{digit_char, digit_of, push_char};

verus! {

/// Bytes left as they are: `A-Z`, `a-z`, `0-9`, `-`, `_`, `.`, `~`.
pub open spec fn is_unreserved(b: u8) -> bool {
    (0x41 <= b && b <= 0x5A) || (0x61 <= b && b <= 0x7A) || (0x30 <= b && b <= 0x39) || b == 0x2D
        || b == 0x5F || b == 0x2E || b == 0x7E
}

pub open spec fn hex_upper_digit(d: nat) -> char {
    if d < 10 { digit_char(d) }
    else if d == 10 { 'A' }
    else if d == 11 { 'B' }
    else if d == 12 { 'C' }
    else if d == 13 { 'D' }
    else if d == 14 { 'E' }
    else { 'F' }
}

/// The percent-encoding of one byte: itself when unreserved, else `%XX`
/// with uppercase hex digits.
pub open spec fn encode_byte(b: u8) -> Seq<char> {
    if is_unreserved(b) {
        seq![b as char]
    } else {
        seq!['%', hex_upper_digit((b / 16) as nat), hex_upper_digit((b % 16) as nat)]
    }
}

/// Percent-encoding of a byte string, byte by byte.
pub open spec fn encode_bytes(bytes: Seq<u8>) -> Seq<char>
    decreases bytes.len(),
{
    if bytes.len() == 0 {
        Seq::empty()
    } else {
        encode_bytes(bytes.drop_last()) + encode_byte(bytes.last())
    }
}

fn hex_upper_of(d: u8) -> (c: char)
    requires
        d < 16,
    ensures
        c == hex_upper_digit(d as nat),
{
    if d < 10 {
        digit_of(d as u64)
    } else if d == 10 { 'A' }
    else if d == 11 { 'B' }
    else if d == 12 { 'C' }
    else if d == 13 { 'D' }
    else if d == 14 { 'E' }
    else { 'F' }
}

/// Percent-encodes `s` for use in a URL query: unreserved ASCII bytes are
/// kept, every other byte of the UTF-8 encoding becomes `%XX`.
pub fn encode(s: &str) -> (r: String)
    ensures
        r@ == encode_bytes(s.spec_bytes()),
{
    let bytes = s.as_bytes();
    let mut out = String::new();
    let mut i: usize = 0;
    while i < bytes.len()
        invariant
            0 <= i <= bytes@.len(),
            out@ == encode_bytes(bytes@.take(i as int)),
        decreases bytes@.len() - i,
    {
        let b = bytes[i];
        let keep = (b >= 0x41 && b <= 0x5A) || (b >= 0x61 && b <= 0x7A) || (b >= 0x30 && b <= 0x39)
            || b == 0x2D || b == 0x5F || b == 0x2E || b == 0x7E;
        let ghost prev = out@;
        if keep {
            push_char(&mut out, b as char);
        } else {
            push_char(&mut out, '%');
            push_char(&mut out, hex_upper_of(b / 16));
            push_char(&mut out, hex_upper_of(b % 16));
        }
        proof {
            let t = bytes@.take(i + 1);
            assert(t.drop_last() =~= bytes@.take(i as int));
            assert(t.last() == b);
            assert(out@ =~= prev + encode_byte(b));
        }
        i = i + 1;
    }
    proof {
        assert(bytes@.take(bytes@.len() as int) =~= bytes@);
    }
    out
}

/// A character that cannot end a query value or start another parameter:
/// an ASCII letter or digit, `-`, `_`, `.`, `~` or `%`.
pub open spec fn url_safe_char(c: char) -> bool {
    ('A' <= c <= 'Z') || ('a' <= c <= 'z') || ('0' <= c <= '9') || c == '-' || c == '_' || c == '.'
        || c == '~' || c == '%'
}

/// Law: percent-encoding only ever emits letters, digits, `-`, `_`, `.`,
/// `~` and `%`, so an encoded value never carries a raw `&`, `=`, `#` or
/// `?` into the URL it is placed in.
pub proof fn lemma_encoding_is_url_safe(bytes: Seq<u8>)
    ensures
        forall|i: int| 0 <= i < encode_bytes(bytes).len() ==> url_safe_char(#[trigger] encode_bytes(bytes)[i]),
    decreases bytes.len(),
{
    if bytes.len() > 0 {
        let init = bytes.drop_last();
        lemma_encoding_is_url_safe(init);
        let b = bytes.last();
        let head = encode_bytes(init);
        let tail = encode_byte(b);
        assert(encode_bytes(bytes) == head + tail);
        assert forall|j: int| 0 <= j < tail.len() implies url_safe_char(#[trigger] tail[j]) by {
            if !is_unreserved(b) {
                let hi = (b / 16) as nat;
                let lo = (b % 16) as nat;
                assert(hi < 16 && lo < 16);
                assert(hex_upper_digit(hi) == tail[1]);
                assert(hex_upper_digit(lo) == tail[2]);
                if j > 0 {
                    let d = if j == 1 { hi } else { lo };
                    if d < 10 {
                        assert(digit_char(d) == tail[j]);
                        assert('0' <= digit_char(d) <= '9');
                    }
                }
            } else {
                assert(tail[0] == b as char);
            }
        }
        assert forall|i: int| 0 <= i < encode_bytes(bytes).len() implies url_safe_char(
            #[trigger] encode_bytes(bytes)[i],
        ) by {
            if i < head.len() {
                assert(encode_bytes(bytes)[i] == head[i]);
            } else {
                assert(encode_bytes(bytes)[i] == tail[i - head.len()]);
            }
        }
    }
}

/// How many bytes of `bytes` are not unreserved (each becomes `%XX`).
pub open spec fn reserved_count(bytes: Seq<u8>) -> nat
    decreases bytes.len(),
{
    if bytes.len() == 0 {
        0
    } else {
        reserved_count(bytes.drop_last()) + if is_unreserved(bytes.last()) { 0nat } else { 1nat }
    }
}

/// Law: the encoding is one character per unreserved byte and three per
/// other byte.
pub proof fn lemma_encoding_length(bytes: Seq<u8>)
    ensures
        encode_bytes(bytes).len() == bytes.len() + 2 * reserved_count(bytes),
    decreases bytes.len(),
{
    if bytes.len() > 0 {
        lemma_encoding_length(bytes.drop_last());
    }
}

/// The value of a hexadecimal digit (either case).
pub open spec fn hex_value(c: char) -> int {
    if '0' <= c <= '9' {
        c as int - '0' as int
    } else if 'A' <= c <= 'F' {
        c as int - 'A' as int + 10
    } else {
        c as int - 'a' as int + 10
    }
}

pub open spec fn is_hex_digit(c: char) -> bool {
    ('0' <= c <= '9') || ('A' <= c <= 'F') || ('a' <= c <= 'f')
}

/// Percent-decoding: `%XX` with two hex digits is the byte `0xXX`; any
/// other character stands for its own UTF-8 bytes.
pub open spec fn percent_decode(s: Seq<char>) -> Seq<u8>
    decreases s.len(),
{
    if s.len() == 0 {
        Seq::empty()
    } else if s[0] == '%' && s.len() >= 3 && is_hex_digit(s[1]) && is_hex_digit(s[2]) {
        seq![(16 * hex_value(s[1]) + hex_value(s[2])) as u8] + percent_decode(s.skip(3))
    } else {
        vstd::utf8::encode_utf8(seq![s[0]]) + percent_decode(s.drop_first())
    }
}

proof fn lemma_hex_digit_value(d: nat)
    requires
        d < 16,
    ensures
        is_hex_digit(hex_upper_digit(d)),
        hex_value(hex_upper_digit(d)) == d,
{
}

proof fn lemma_decode_one(b: u8, rest: Seq<char>)
    ensures
        percent_decode(encode_byte(b) + rest) == seq![b] + percent_decode(rest),
{
    let e = encode_byte(b) + rest;
    if is_unreserved(b) {
        assert(e[0] == b as char);
        assert(e.drop_first() =~= rest);
        let c = b as char;
        let u = b as u32;
        assert(c as u32 == u);
        assert(u <= 0x7F);
        assert((u & 0x7F) as u8 == b) by (bit_vector)
            requires
                u == b as u32,
                u <= 0x7F,
        ;
        assert(seq![c].drop_first() =~= Seq::<char>::empty());
        assert(seq![c][0] == c);
        assert(vstd::utf8::encode_scalar(u) == seq![b]);
        assert(vstd::utf8::encode_utf8(Seq::<char>::empty()) == Seq::<u8>::empty());
        assert(vstd::utf8::encode_utf8(seq![c]) == vstd::utf8::encode_scalar(u) + vstd::utf8::encode_utf8(
            Seq::<char>::empty(),
        ));
        assert(vstd::utf8::encode_utf8(seq![c]) =~= seq![b]);
    } else {
        lemma_hex_digit_value((b / 16) as nat);
        lemma_hex_digit_value((b % 16) as nat);
        assert(e[0] == '%');
        assert(e[1] == hex_upper_digit((b / 16) as nat));
        assert(e[2] == hex_upper_digit((b % 16) as nat));
        assert(e.skip(3) =~= rest);
        assert((16 * ((b / 16) as nat) + (b % 16) as nat) as u8 == b);
    }
}

proof fn lemma_encode_front(x: u8, rest: Seq<u8>)
    ensures
        encode_bytes(seq![x] + rest) == encode_byte(x) + encode_bytes(rest),
    decreases rest.len(),
{
    let whole = seq![x] + rest;
    if rest.len() == 0 {
        assert(whole.drop_last() =~= Seq::<u8>::empty());
        assert(whole.last() == x);
        assert(encode_bytes(Seq::<u8>::empty()) == Seq::<char>::empty());
        assert(encode_bytes(rest) == Seq::<char>::empty());
        assert(encode_byte(x) + Seq::<char>::empty() =~= encode_byte(x));
    } else {
        lemma_encode_front(x, rest.drop_last());
        assert(whole.drop_last() =~= seq![x] + rest.drop_last());
        assert(whole.last() == rest.last());
        assert(encode_byte(x) + encode_bytes(rest.drop_last()) + encode_byte(rest.last())
            =~= encode_byte(x) + (encode_bytes(rest.drop_last()) + encode_byte(rest.last())));
    }
}

/// Law: percent-decoding an encoding gives back the bytes that were encoded.
pub proof fn lemma_decode_inverts_encode(bytes: Seq<u8>)
    ensures
        percent_decode(encode_bytes(bytes)) == bytes,
    decreases bytes.len(),
{
    if bytes.len() > 0 {
        let x = bytes[0];
        let rest = bytes.drop_first();
        assert(bytes =~= seq![x] + rest);
        lemma_encode_front(x, rest);
        lemma_decode_one(x, encode_bytes(rest));
        lemma_decode_inverts_encode(rest);
    } else {
        assert(encode_bytes(bytes) =~= Seq::<char>::empty());
    }
}

} // verus!
