use vstd::prelude::*;
use vstd::string::StringSliceAdditionalSpecFns;
use vstd::utf8::is_char_boundary;

verus! {

/// A byte that `u8::is_ascii_hexdigit` accepts.
pub open spec fn is_hex_byte(b: u8) -> bool {
    (0x30 <= b && b <= 0x39) || (0x41 <= b && b <= 0x46) || (0x61 <= b && b <= 0x66)
}

/// The positions of the four dashes in `xxxxxxxx-xxxx-xxxx-xxxx-xxxxxxxxxxxx`.
pub open spec fn is_guid_dash_position(i: int) -> bool {
    i == 8 || i == 13 || i == 18 || i == 23
}

/// A byte string in canonical GUID shape: 36 bytes, dashes at the four
/// separator positions and hex digits everywhere else.
pub open spec fn spec_is_guid(bytes: Seq<u8>) -> bool {
    &&& bytes.len() == 36
    &&& forall|i: int|
        0 <= i < 36 ==> (if is_guid_dash_position(i) {
            #[trigger] bytes[i] == 0x2d
        } else {
            is_hex_byte(bytes[i])
        })
}

/// Law: a string that passes `is_guid` holds none of the characters that
/// could redirect a request path (`/`, `?`, `.`, `%`, `#`, `&`), so it is
/// safe to interpolate into a HaloPSA URL.
pub proof fn lemma_guid_is_path_safe(bytes: Seq<u8>)
    requires
        spec_is_guid(bytes),
    ensures
        forall|i: int|
            0 <= i < bytes.len() ==> #[trigger] bytes[i] != 0x2f && bytes[i] != 0x3f && bytes[i] != 0x2e
                && bytes[i] != 0x25 && bytes[i] != 0x23 && bytes[i] != 0x26,
{
    assert forall|i: int| 0 <= i < bytes.len() implies #[trigger] bytes[i] != 0x2f && bytes[i] != 0x3f
        && bytes[i] != 0x2e && bytes[i] != 0x25 && bytes[i] != 0x23 && bytes[i] != 0x26 by {
        if is_guid_dash_position(i) {
            assert(bytes[i] == 0x2d);
        } else {
            assert(is_hex_byte(bytes[i]));
        }
    }
}

fn hex_byte(b: u8) -> (r: bool)
    ensures
        r == is_hex_byte(b),
{
    (b >= 0x30 && b <= 0x39) || (b >= 0x41 && b <= 0x46) || (b >= 0x61 && b <= 0x66)
}

/// Check that `s` is a well-formed GUID (`xxxxxxxx-xxxx-xxxx-xxxx-xxxxxxxxxxxx`,
/// hex digits only). Used before interpolating any user- or model-supplied
/// identifier into a HaloPSA request path, so that a crafted value (holding
/// `/`, `?`, `..`) cannot change which endpoint the request reaches.
pub fn is_guid(s: &str) -> (r: bool)
    ensures
        r == spec_is_guid(s.spec_bytes()),
{
    let bytes = s.as_bytes();
    if bytes.len() != 36 {
        return false;
    }
    let mut i: usize = 0;
    while i < 36
        invariant
            bytes@ == s.spec_bytes(),
            bytes@.len() == 36,
            0 <= i <= 36,
            forall|j: int|
                0 <= j < i ==> (if is_guid_dash_position(j) {
                    #[trigger] bytes@[j] == 0x2d
                } else {
                    is_hex_byte(bytes@[j])
                }),
        decreases 36 - i,
    {
        let b = bytes[i];
        if i == 8 || i == 13 || i == 18 || i == 23 {
            if b != 0x2d {
                assert(is_guid_dash_position(i as int));
                return false;
            }
        } else {
            if !hex_byte(b) {
                return false;
            }
        }
        i = i + 1;
    }
    true
}


/// The cut point of `truncate_str`: the whole length when it fits, else the
/// largest character boundary that is at most `max_bytes`.
pub open spec fn is_truncation_cut(bytes: Seq<u8>, max_bytes: int, end: int) -> bool {
    if bytes.len() <= max_bytes {
        end == bytes.len()
    } else {
        &&& 0 <= end <= max_bytes
        &&& is_char_boundary(bytes, end)
        &&& forall|k: int| end < k <= max_bytes ==> !#[trigger] is_char_boundary(bytes, k)
    }
}

/// Truncate a string to at most `max_bytes` bytes, backing off to the
/// nearest UTF-8 character boundary so that the cut never lands inside a
/// multi-byte character (the input may be attacker-influenced ticket text).
pub fn truncate_str(s: &str, max_bytes: usize) -> (r: &str)
    ensures
        exists|end: int|
            is_truncation_cut(s.spec_bytes(), max_bytes as int, end) && r.spec_bytes()
                =~= s.spec_bytes().subrange(0, end),
        r.spec_bytes().len() <= max_bytes,
        s.spec_bytes().len() <= max_bytes ==> r@ == s@,
{
    broadcast use vstd::utf8::encode_utf8_valid_utf8, vstd::utf8::is_char_boundary_start_end_of_seq;

    let total = s.as_bytes().len();
    if total <= max_bytes {
        proof {
            assert(s.spec_bytes().subrange(0, s.spec_bytes().len() as int) =~= s.spec_bytes());
            assert(is_truncation_cut(s.spec_bytes(), max_bytes as int, s.spec_bytes().len() as int));
        }
        return s;
    }
    let ghost bytes = s.spec_bytes();
    proof {
        assert(vstd::utf8::valid_utf8(bytes));
        assert(is_char_boundary(bytes, 0));
    }
    let mut end = max_bytes;
    while end > 0 && !s.is_char_boundary(end)
        invariant
            bytes == s.spec_bytes(),
            vstd::utf8::valid_utf8(bytes),
            is_char_boundary(bytes, 0),
            bytes.len() > max_bytes,
            0 <= end <= max_bytes,
            forall|k: int| end < k <= max_bytes ==> !#[trigger] is_char_boundary(bytes, k),
        decreases end,
    {
        end = end - 1;
    }
    let (head, _tail) = s.split_at(end);
    proof {
        assert(is_truncation_cut(bytes, max_bytes as int, end as int));
    }
    head
}

} // verus!
