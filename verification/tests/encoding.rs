use halopsa_mcp::config::{access_token_ttl, cutoff_secs, DEFAULT_TOKEN_TTL_SECS};
use halopsa_mcp::digest::sha256_hex;
use halopsa_mcp::semantic::{candidate_count, excerpt, PermissionScan};

#[test]
fn hex_is_lowercase_two_digits_per_byte() {
    assert_eq!(halopsa_mcp::hex::encode(&[0x00, 0x0f, 0xab, 0xff]), "000fabff");
    assert_eq!(halopsa_mcp::hex::encode(&[]), "");
}

#[test]
fn url_encoding_keeps_unreserved_bytes() {
    assert_eq!(halopsa_mcp::urlencoding::encode("aZ09-_.~"), "aZ09-_.~");
    assert_eq!(halopsa_mcp::urlencoding::encode("a b/c?d=é"), "a%20b%2Fc%3Fd%3D%C3%A9");
}

#[test]
fn sha256_hex_known_values() {
    assert_eq!(sha256_hex("abc"), "ba7816bf8f01cfea414140de5dae2223b00361a396177a9cb410ff61f20015ad");
}

#[test]
fn token_ttl_setting() {
    assert_eq!(access_token_ttl(None), DEFAULT_TOKEN_TTL_SECS);
    assert_eq!(access_token_ttl(Some("3600")), 3600);
    assert_eq!(access_token_ttl(Some("-5")), DEFAULT_TOKEN_TTL_SECS);
    assert_eq!(access_token_ttl(Some("soon")), DEFAULT_TOKEN_TTL_SECS);
    assert_eq!(cutoff_secs(1_000, 86_400), -85_400);
}

#[test]
fn semantic_search_sizes_and_excerpts() {
    assert_eq!(candidate_count(10), 30);
    assert_eq!(excerpt("short"), "short");
    let long = format!("{}é{}", "a".repeat(499), "b".repeat(5));
    assert_eq!(excerpt(&long), format!("{}...", "a".repeat(499)));
}

#[test]
fn permission_scan_checks_groups_until_enough_are_accessible() {
    let ids: Vec<i64> = (1..=25).collect();
    let mut scan = PermissionScan::new(ids, 3);
    let first = scan.next_group();
    assert_eq!(first, (1..=10).collect::<Vec<i64>>());
    // Only ticket 4 is visible in the first group.
    let verdicts: Vec<bool> = first.iter().map(|id| *id == 4).collect();
    scan.record(&verdicts);
    assert!(!scan.done());
    let second = scan.next_group();
    assert_eq!(second, (11..=20).collect::<Vec<i64>>());
    let verdicts: Vec<bool> = second.iter().map(|id| id % 5 == 0).collect();
    scan.record(&verdicts);
    // Tickets 4, 15 and 20 are accessible: enough, so the scan stops.
    assert!(scan.done());
    assert!(scan.next_group().is_empty());
    assert_eq!(scan.accessible(), vec![3, 14, 19]);
}

#[test]
fn permission_scan_of_nothing_and_a_zero_limit() {
    let scan = PermissionScan::new(vec![], 5);
    assert!(scan.done());
    assert!(scan.accessible().is_empty());
    // A zero limit still checks one group.
    let mut scan = PermissionScan::new(vec![7, 8], 0);
    assert_eq!(scan.next_group(), vec![7, 8]);
    scan.record(&vec![false, true]);
    assert!(scan.done());
    assert_eq!(scan.accessible(), vec![1]);
}

#[test]
fn encoded_values_carry_no_url_separators() {
    let e = halopsa_mcp::urlencoding::encode("x&state=evil#frag?y=1 ü");
    assert_eq!(e, "x%26state%3Devil%23frag%3Fy%3D1%20%C3%BC");
    assert!(e.chars().all(|c| c.is_ascii_alphanumeric() || "-_.~%".contains(c)));
}

#[test]
fn encoded_length_is_three_per_reserved_byte() {
    // "é" is two bytes and " " one: three reserved bytes among seven.
    let s = "ab cdé";
    let e = halopsa_mcp::urlencoding::encode(s);
    assert_eq!(e.len(), s.len() + 2 * 3);
    // Reading each "%XX" back as a byte gives the original bytes.
    let b = e.as_bytes();
    let mut back: Vec<u8> = Vec::new();
    let mut i = 0;
    while i < b.len() {
        if b[i] == b'%' {
            let hex = std::str::from_utf8(&b[i + 1..i + 3]).unwrap();
            back.push(u8::from_str_radix(hex, 16).unwrap());
            i += 3;
        } else {
            back.push(b[i]);
            i += 1;
        }
    }
    assert_eq!(back, s.as_bytes());
}
