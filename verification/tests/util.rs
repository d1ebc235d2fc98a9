use halopsa_mcp::util::{is_guid, truncate_str};

#[test]
fn accepts_well_formed_guid() {
    assert!(is_guid("ba1b786f-1234-5678-9abc-def012345678"));
}

#[test]
fn rejects_path_traversal_and_junk() {
    assert!(!is_guid("../../Tickets"));
    assert!(!is_guid("1?foo=bar"));
    assert!(!is_guid(""));
    assert!(!is_guid("ba1b786f-1234-5678-9abc-def01234567")); // one char short
    assert!(!is_guid("ba1b786f-1234-5678-9abc-def012345678/../x"));
}

#[test]
fn leaves_short_strings_untouched() {
    assert_eq!(truncate_str("hello", 500), "hello");
}

#[test]
fn does_not_panic_on_multibyte_boundary() {
    // Each 'é' is 2 bytes; byte 5 falls inside the third one, so the cut
    // backs off to byte 4: two characters. The result is at most 5 bytes,
    // as `truncate_str` documents, so four characters (8 bytes) cannot be
    // its answer.
    let s = "éééééééééé";
    assert_eq!(truncate_str(s, 5), "éé");
}

#[test]
fn handles_emoji_boundaries() {
    let s = "🎉".repeat(200); // 4 bytes each
    let truncated = truncate_str(&s, 500);
    assert!(truncated.len() <= 500);
    assert!(s.starts_with(truncated));
}

#[test]
fn guid_accepts_uppercase_hex() {
    assert!(is_guid("BA1B786F-1234-5678-9ABC-DEF012345678"));
}

#[test]
fn guid_rejects_dash_in_wrong_place() {
    assert!(!is_guid("ba1b786f1-234-5678-9abc-def012345678"));
    assert!(!is_guid("ba1b786g-1234-5678-9abc-def012345678"));
}

#[test]
fn truncate_backs_off_to_boundary_exactly() {
    // "aé" is 3 bytes; cutting at 2 lands inside 'é', so only "a" remains.
    assert_eq!(truncate_str("aéb", 2), "a");
    assert_eq!(truncate_str("aéb", 3), "aé");
    assert_eq!(truncate_str("abc", 0), "");
}
