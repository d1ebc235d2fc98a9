use halopsa_mcp::json::{JsonEntry, JsonValue};
use halopsa_mcp::requests::{
    action_request, create_site_request, create_ticket_request, update_action_request, update_ticket_request,
};

fn obj(members: Vec<(&str, JsonValue)>) -> JsonValue {
    JsonValue::Object(members.into_iter().map(|(k, v)| JsonEntry { key: k.to_string(), value: v }).collect())
}

fn text(v: &JsonValue) -> String {
    match v {
        JsonValue::Null => "null".to_string(),
        JsonValue::Bool(b) => b.to_string(),
        JsonValue::Int(i) => i.to_string(),
        JsonValue::UInt(u) => u.to_string(),
        JsonValue::Float(f) => f.clone(),
        JsonValue::Str(s) => format!("\"{}\"", s),
        JsonValue::Array(items) => format!("[{}]", items.iter().map(text).collect::<Vec<_>>().join(",")),
        JsonValue::Object(es) => format!(
            "{{{}}}",
            es.iter().map(|e| format!("\"{}\":{}", e.key, text(&e.value))).collect::<Vec<_>>().join(",")
        ),
    }
}

#[test]
fn action_body_carries_optional_transition_and_status() {
    let b = action_request(42, "hi", "note", Some(7), None, true);
    assert_eq!(text(&b), r#"[{"ticket_id":42,"note":"hi","outcome":"note","hiddenfromuser":true,"workflow_subdetail_id":7}]"#);
    let b = action_request(42, "done", "note", None, Some(9), false);
    assert_eq!(text(&b), r#"[{"ticket_id":42,"note":"done","outcome":"note","hiddenfromuser":false,"status_id":9}]"#);
}

#[test]
fn action_edit_body() {
    let b = update_action_request(42, 5, "fixed", None);
    assert_eq!(text(&b), r#"[{"id":5,"ticket_id":42,"note":"fixed"}]"#);
    let b = update_action_request(42, 5, "fixed", Some(false));
    assert_eq!(text(&b), r#"[{"id":5,"ticket_id":42,"note":"fixed","hiddenfromuser":false}]"#);
}

#[test]
fn ticket_bodies_copy_only_the_listed_fields() {
    let args = obj(vec![
        ("summary", JsonValue::Str("Printer".to_string())),
        ("client_id", JsonValue::Int(3)),
        ("team_id", JsonValue::Int(4)),
        ("status_id", JsonValue::Int(2)),
        ("password", JsonValue::Str("x".to_string())),
    ]);
    let b = create_ticket_request("Printer", 3, &args);
    assert_eq!(text(&b), r#"[{"summary":"Printer","client_id":3,"team_id":4}]"#);
    let b = update_ticket_request(11, &args);
    assert_eq!(text(&b), r#"[{"summary":"Printer","team_id":4,"status_id":2,"id":11}]"#);
}

#[test]
fn site_body_marks_site_details() {
    let args = obj(vec![("timezone", JsonValue::Str("UTC".to_string())), ("inactive", JsonValue::Bool(false))]);
    let b = create_site_request(3, "HQ", &args);
    assert_eq!(text(&b), r#"[{"client_id":3,"name":"HQ","timezone":"UTC","inactive":false,"issitedetails":true}]"#);
}
