use halopsa_mcp::json::{
    arg_bool, arg_i64, arg_str, as_i64, as_u64, copy_json, get, parse_halo_list, merge_unique_by_id,
    priority_labels, redact_secrets, redacted, strip_ticket_bloat, summarize_ticket, summarize_tickets,
    JsonEntry, JsonValue,
};

fn s(x: &str) -> JsonValue {
    JsonValue::Str(x.to_string())
}

fn i(x: i64) -> JsonValue {
    JsonValue::Int(x)
}

fn arr(items: Vec<JsonValue>) -> JsonValue {
    JsonValue::Array(items)
}

fn obj(members: Vec<(&str, JsonValue)>) -> JsonValue {
    JsonValue::Object(
        members
            .into_iter()
            .map(|(k, v)| JsonEntry { key: k.to_string(), value: v })
            .collect(),
    )
}

/// Compact JSON text, members in their stored order.
fn render(v: &JsonValue) -> String {
    match v {
        JsonValue::Null => "null".to_string(),
        JsonValue::Bool(b) => b.to_string(),
        JsonValue::Int(n) => n.to_string(),
        JsonValue::UInt(n) => n.to_string(),
        JsonValue::Float(t) => t.clone(),
        JsonValue::Str(t) => format!("{:?}", t),
        JsonValue::Array(items) => {
            let parts: Vec<String> = items.iter().map(render).collect();
            format!("[{}]", parts.join(","))
        }
        JsonValue::Object(es) => {
            let parts: Vec<String> = es
                .iter()
                .map(|e| format!("{:?}:{}", e.key, render(&e.value)))
                .collect();
            format!("{{{}}}", parts.join(","))
        }
    }
}

fn client_with_portal_user() -> JsonValue {
    obj(vec![
        ("id", i(12)),
        ("name", s("Acme")),
        (
            "site_update",
            arr(vec![obj(vec![
                ("id", i(3)),
                (
                    "users_update",
                    arr(vec![obj(vec![
                        ("name", s("Portal")),
                        ("new_password", s("hunter2")),
                        ("passwordconfirm", s("hunter2")),
                    ])]),
                ),
            ])]),
        ),
        ("password", s("x")),
    ])
}

#[test]
fn redaction_strips_nested_credentials() {
    let mut v = client_with_portal_user();
    redact_secrets(&mut v);
    assert_eq!(
        render(&v),
        r#"{"id":12,"name":"Acme","site_update":[{"id":3,"users_update":[{"name":"Portal"}]}]}"#
    );
}

#[test]
fn redaction_is_idempotent_and_keeps_clean_documents() {
    let once = redacted(&client_with_portal_user());
    let twice = redacted(&once);
    assert_eq!(render(&once), render(&twice));
    let clean = obj(vec![("a", arr(vec![i(1), s("password")])), ("b", JsonValue::Null)]);
    assert_eq!(render(&redacted(&clean)), render(&clean));
}

#[test]
fn redaction_of_scalars_and_arrays_of_objects() {
    assert_eq!(render(&redacted(&s("password"))), r#""password""#);
    let v = arr(vec![obj(vec![("password", i(1))]), obj(vec![("passwordx", i(2))])]);
    assert_eq!(render(&redacted(&v)), r#"[{},{"passwordx":2}]"#);
}

#[test]
fn copy_is_identical() {
    let v = client_with_portal_user();
    assert_eq!(render(&copy_json(&v)), render(&v));
}

#[test]
fn strip_ticket_bloat_drops_extra_actions_only_at_top() {
    let mut t = obj(vec![
        ("id", i(5)),
        ("extra_actions", arr(vec![i(1), i(2)])),
        ("nested", obj(vec![("extra_actions", i(3))])),
    ]);
    strip_ticket_bloat(&mut t);
    assert_eq!(render(&t), r#"{"id":5,"nested":{"extra_actions":3}}"#);
    let mut a = arr(vec![i(1)]);
    strip_ticket_bloat(&mut a);
    assert_eq!(render(&a), "[1]");
}

#[test]
fn halo_list_reads_bare_arrays_and_wrapped_lists() {
    let bare = arr(vec![i(1), i(2)]);
    assert_eq!(render(&arr(parse_halo_list(&bare))), "[1,2]");
    let wrapped = obj(vec![("record_count", i(2)), ("tickets", arr(vec![i(7), i(8)])), ("x", arr(vec![]))]);
    assert_eq!(render(&arr(parse_halo_list(&wrapped))), "[7,8]");
    let none = obj(vec![("record_count", i(0))]);
    assert!(parse_halo_list(&none).is_empty());
    assert!(parse_halo_list(&s("oops")).is_empty());
}

#[test]
fn ticket_summary_picks_listing_fields() {
    let t = obj(vec![
        ("id", i(9)),
        ("summary", s("Down")),
        ("details", s("long")),
        ("priority", obj(vec![("name", s("High"))])),
    ]);
    assert_eq!(
        render(&summarize_ticket(&t)),
        r#"{"id":9,"summary":"Down","client_name":null,"agent_name":null,"team":null,"status":null,"priority":{"name":"High"},"dateoccurred":null}"#
    );
    let list = summarize_tickets(&[t, s("not a ticket")]);
    assert_eq!(list.len(), 2);
    assert_eq!(
        render(&list[1]),
        r#"{"id":null,"summary":null,"client_name":null,"agent_name":null,"team":null,"status":null,"priority":null,"dateoccurred":null}"#
    );
}

#[test]
fn merge_keeps_first_of_each_id_and_cuts_to_page_size() {
    let tickets = vec![
        obj(vec![("id", i(1)), ("p", s("High"))]),
        obj(vec![("id", i(2)), ("p", s("High"))]),
        obj(vec![("id", i(1)), ("p", s("Critical"))]),
        obj(vec![("summary", s("no id"))]),
        obj(vec![("id", s("3"))]),
        obj(vec![("id", i(4)), ("p", s("RFO"))]),
    ];
    let merged = merge_unique_by_id(&tickets, 50);
    assert_eq!(
        render(&arr(merged)),
        r#"[{"id":1,"p":"High"},{"id":2,"p":"High"},{"id":4,"p":"RFO"}]"#
    );
    assert_eq!(merge_unique_by_id(&tickets, 2).len(), 2);
    assert_eq!(render(&arr(merge_unique_by_id(&tickets, 0))), r#"[{"id":1,"p":"High"}]"#);
    assert_eq!(merge_unique_by_id(&tickets, -5).len(), 1);
}

#[test]
fn priority_labels_default_and_given() {
    assert_eq!(priority_labels(&obj(vec![])), vec!["High", "Critical", "RFO"]);
    assert_eq!(priority_labels(&obj(vec![("priority_labels", s("High"))])), vec!["High", "Critical", "RFO"]);
    let args = obj(vec![("priority_labels", arr(vec![s("P1"), i(2), s("P3")]))]);
    assert_eq!(priority_labels(&args), vec!["P1", "P3"]);
    assert!(priority_labels(&obj(vec![("priority_labels", arr(vec![]))])).is_empty());
}

#[test]
fn member_and_argument_readers() {
    let args = obj(vec![
        ("page", i(3)),
        ("big", JsonValue::UInt(u64::MAX)),
        ("small", JsonValue::UInt(7)),
        ("neg", i(-1)),
        ("name", s("x")),
        ("flag", JsonValue::Bool(true)),
        ("name", s("second")),
    ]);
    assert_eq!(arg_i64(&args, "page"), Some(3));
    assert_eq!(arg_i64(&args, "big"), None);
    assert_eq!(arg_i64(&args, "small"), Some(7));
    assert_eq!(arg_i64(&args, "name"), None);
    assert_eq!(arg_i64(&args, "missing"), None);
    assert_eq!(arg_str(&args, "name"), Some("x".to_string()));
    assert_eq!(arg_str(&args, "page"), None);
    assert_eq!(arg_bool(&args, "flag"), Some(true));
    assert_eq!(arg_bool(&args, "name"), None);
    assert!(get(&s("x"), "name").is_none());
    assert_eq!(as_i64(&JsonValue::Float("1.5".to_string())), None);
    assert_eq!(as_u64(&i(-1)), None);
    assert_eq!(as_u64(&i(5)), Some(5));
    assert_eq!(as_u64(&JsonValue::UInt(u64::MAX)), Some(u64::MAX));
}
