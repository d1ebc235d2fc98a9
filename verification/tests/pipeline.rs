use halopsa_mcp::json::{JsonEntry, JsonValue};
use halopsa_mcp::pipeline::{
    action_input_from_json, action_inputs_from_json, completion_status, embedding_count_error,
    needs_reembed, parse_job_scope, progress_text, should_report_progress, ticket_content_hash,
    ticket_metadata_from_json, ticket_text, worker_name, JobScope,
};

fn obj(members: Vec<(&str, JsonValue)>) -> JsonValue {
    JsonValue::Object(
        members
            .into_iter()
            .map(|(k, v)| JsonEntry { key: k.to_string(), value: v })
            .collect(),
    )
}

fn st(x: &str) -> JsonValue {
    JsonValue::Str(x.to_string())
}

#[test]
fn job_scopes() {
    assert!(matches!(parse_job_scope("all"), Ok(JobScope::All)));
    assert!(matches!(parse_job_scope("ticket:42"), Ok(JobScope::Ticket(42))));
    assert!(matches!(parse_job_scope("ticket:-7"), Ok(JobScope::Ticket(-7))));
    let e = parse_job_scope("ticket:abc").unwrap_err();
    assert!(e.starts_with("Invalid ticket ID: "), "{e}");
    assert_eq!(parse_job_scope("everything").unwrap_err(), "Unknown job scope: everything");
    assert_eq!(parse_job_scope("").unwrap_err(), "Unknown job scope: ");
}

#[test]
fn content_hash_and_change_detection() {
    let h = ticket_content_hash("Printer broken", "It jams.");
    assert_eq!(h, "e093b3e2b63bb6981a5290c220850303649679d2503e67f9c0a0bed25cec23c3");
    assert!(!needs_reembed(Some(&h), &h));
    assert!(needs_reembed(Some("other"), &h));
    assert!(needs_reembed(None, &h));
}

#[test]
fn job_bookkeeping_texts() {
    assert_eq!(embedding_count_error(3, 3), None);
    assert_eq!(
        embedding_count_error(3, 2),
        Some("Embedding count mismatch: 3 chunks, 2 embeddings".to_string())
    );
    assert!(should_report_progress(0));
    assert!(should_report_progress(20));
    assert!(!should_report_progress(21));
    assert_eq!(worker_name("abc"), "embedder-abc");
    assert_eq!(completion_status(true), "failed");
    assert_eq!(completion_status(false), "completed");
    assert_eq!(progress_text(5, -1), "5/-1");
}

#[test]
fn ticket_fields_for_chunking() {
    let t = obj(vec![
        ("summary", st("Down")),
        ("client_name", st("Acme")),
        ("category_1", st("Network")),
        ("team", JsonValue::Int(3)),
    ]);
    let (summary, details) = ticket_text(&t);
    assert_eq!(summary, "Down");
    assert_eq!(details, "");
    let m = ticket_metadata_from_json(&t);
    assert_eq!(m.client_name.as_deref(), Some("Acme"));
    assert_eq!(m.category.as_deref(), Some("Network"));
    assert_eq!(m.team, None);
    assert!(m.custom_fields.is_empty() && m.assets.is_empty());
}

#[test]
fn action_fields_for_chunking() {
    let a = obj(vec![("note", st("<p>hi</p>")), ("who", st("Sam")), ("actiondate", st("2024-01-02"))]);
    let x = action_input_from_json(&a);
    assert_eq!(x.note, "<p>hi</p>");
    assert_eq!(x.who.as_deref(), Some("Sam"));
    assert_eq!(x.outcome, None);
    assert_eq!(x.date.as_deref(), Some("2024-01-02"));
    let all = action_inputs_from_json(&vec![a, JsonValue::Null]);
    assert_eq!(all.len(), 2);
    assert_eq!(all[1].note, "");
}
