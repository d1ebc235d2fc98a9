use halopsa_mcp::onetime::OneTimeStore;

#[test]
fn a_code_is_redeemed_once() {
    let mut codes: OneTimeStore<String> = OneTimeStore::new();
    codes.insert("code-1".to_string(), 10, "first".to_string());
    codes.insert("code-2".to_string(), 20, "second".to_string());
    assert_eq!(codes.take("code-1"), Some("first".to_string()));
    assert_eq!(codes.take("code-1"), None);
    assert_eq!(codes.take("code-2"), Some("second".to_string()));
    assert_eq!(codes.len(), 0);
}

#[test]
fn storing_a_key_again_replaces_its_value() {
    let mut codes: OneTimeStore<u32> = OneTimeStore::new();
    codes.insert("k".to_string(), 1, 1);
    codes.insert("k".to_string(), 2, 2);
    assert_eq!(codes.len(), 1);
    assert_eq!(codes.take("k"), Some(2));
}

#[test]
fn stale_entries_are_dropped() {
    let mut codes: OneTimeStore<u32> = OneTimeStore::new();
    codes.insert("old".to_string(), 0, 1);
    codes.insert("new".to_string(), 900, 2);
    // At time 1000 with a lifetime of 600, "old" (age 1000) is stale and
    // "new" (age 100) is fresh.
    codes.remove_stale(1000, 600);
    assert_eq!(codes.len(), 1);
    assert_eq!(codes.take("old"), None);
    assert_eq!(codes.take("new"), Some(2));
}
