use halopsa_mcp::chunking::split_chars;
use halopsa_mcp::halopsa::{clamped_page_size, jwt_payload};
use halopsa_mcp::json::{
    build_site_address, merge_claims, pick_fields, remove_member, report_filters, set_member, strip_agent_bloat,
    strip_asset_bloat,
    summarize_asset, JsonEntry, JsonValue,
};
use halopsa_mcp::tools::resolve_agent_id;

fn s(x: &str) -> JsonValue {
    JsonValue::Str(x.to_string())
}

fn obj(members: Vec<(&str, JsonValue)>) -> JsonValue {
    JsonValue::Object(
        members
            .into_iter()
            .map(|(k, v)| JsonEntry { key: k.to_string(), value: v })
            .collect(),
    )
}

fn keys(v: &JsonValue) -> Vec<String> {
    match v {
        JsonValue::Object(es) => es.iter().map(|e| e.key.clone()).collect(),
        _ => vec![],
    }
}

fn member<'a>(v: &'a JsonValue, k: &str) -> Option<&'a JsonValue> {
    match v {
        JsonValue::Object(es) => es.iter().find(|e| e.key == k).map(|e| &e.value),
        _ => None,
    }
}

fn as_str(v: Option<&JsonValue>) -> Option<&str> {
    match v {
        Some(JsonValue::Str(t)) => Some(t.as_str()),
        _ => None,
    }
}

#[test]
fn picking_fields_keeps_order_and_fills_nulls() {
    let t = obj(vec![("b", s("2")), ("a", s("1"))]);
    let r = pick_fields(&t, &["a", "c", "b"]);
    assert_eq!(keys(&r), vec!["a", "c", "b"]);
    assert_eq!(as_str(member(&r, "a")), Some("1"));
    assert!(matches!(member(&r, "c"), Some(JsonValue::Null)));
    let asset = summarize_asset(&obj(vec![("id", JsonValue::Int(3)), ("devicename", s("PC-7")), ("fields", s("x"))]));
    assert_eq!(keys(&asset), vec!["id", "inventory_number", "asset_tag", "devicename", "assettype_name", "client_name"]);
    assert_eq!(as_str(member(&asset, "devicename")), Some("PC-7"));
}

#[test]
fn removing_members() {
    let mut a = obj(vec![("id", JsonValue::Int(3)), ("fields", s("schema")), ("name", s("n"))]);
    strip_asset_bloat(&mut a);
    assert_eq!(keys(&a), vec!["id", "name"]);
    remove_member(&mut a, "missing");
    assert_eq!(keys(&a), vec!["id", "name"]);
    let mut not_obj = s("fields");
    remove_member(&mut not_obj, "fields");
    assert!(matches!(not_obj, JsonValue::Str(ref t) if t == "fields"));
}

#[test]
fn setting_members_replaces_or_appends() {
    let mut v = obj(vec![("a", s("1")), ("b", s("2"))]);
    set_member(&mut v, "a", s("new"));
    set_member(&mut v, "c", s("3"));
    assert_eq!(keys(&v), vec!["a", "b", "c"]);
    assert_eq!(as_str(member(&v, "a")), Some("new"));
    assert_eq!(as_str(member(&v, "c")), Some("3"));
    let mut arr = JsonValue::Array(vec![]);
    set_member(&mut arr, "a", s("x"));
    assert!(matches!(arr, JsonValue::Array(ref items) if items.is_empty()));
}

#[test]
fn identity_claims_are_merged_onto_auth_info() {
    let mut info = obj(vec![("tenant", s("acme")), ("name", s("old"))]);
    let claims = obj(vec![("sub", s("42")), ("name", s("Sam")), ("role", s("admin"))]);
    merge_claims(&mut info, &claims);
    assert_eq!(keys(&info), vec!["tenant", "name", "sub"]);
    assert_eq!(as_str(member(&info, "name")), Some("Sam"));
    assert_eq!(as_str(member(&info, "sub")), Some("42"));
    assert!(member(&info, "role").is_none());
}

#[test]
fn site_address_renames_given_members() {
    let args = obj(vec![("address_postcode", s("AB1")), ("name", s("HQ")), ("address_line1", s("1 Road"))]);
    let addr = build_site_address(&args).unwrap();
    assert_eq!(keys(&addr), vec!["line1", "postcode"]);
    assert_eq!(as_str(member(&addr, "postcode")), Some("AB1"));
    assert!(build_site_address(&obj(vec![("name", s("HQ"))])).is_none());
}

#[test]
fn jwt_payload_is_the_decoded_middle_part() {
    let token = "eyJhbGciOiJub25lIn0.eyJzdWIiOiI0MiIsIm5hbWUiOiJTYW0ifQ.sig";
    assert_eq!(jwt_payload(token), Some(br#"{"sub":"42","name":"Sam"}"#.to_vec()));
    assert_eq!(jwt_payload("only.two"), None);
    assert_eq!(jwt_payload("a.b.c.d"), None);
    assert_eq!(jwt_payload("a.!!!.c"), None);
    assert_eq!(jwt_payload("opaque-token"), None);
}

#[test]
fn splitting_on_a_character() {
    let parts: Vec<String> = split_chars("a..b.", '.').iter().map(|p| p.iter().collect()).collect();
    assert_eq!(parts, vec!["a", "", "b", ""]);
    let parts: Vec<String> = split_chars("", '.').iter().map(|p| p.iter().collect()).collect();
    assert_eq!(parts, vec![""]);
}

#[test]
fn page_sizes_and_agent_ids() {
    assert_eq!(clamped_page_size(0), 1);
    assert_eq!(clamped_page_size(500), 100);
    assert_eq!(clamped_page_size(42), 42);
    assert_eq!(resolve_agent_id(&obj(vec![("agentid", JsonValue::Int(7)), ("id", JsonValue::Int(1))])), Some(7));
    assert_eq!(resolve_agent_id(&obj(vec![("agent_id", JsonValue::Int(8))])), Some(8));
    assert_eq!(resolve_agent_id(&obj(vec![("id", JsonValue::Int(9))])), Some(9));
    // A present agentid that is not an integer does not fall back.
    assert_eq!(resolve_agent_id(&obj(vec![("agentid", s("x")), ("id", JsonValue::Int(9))])), None);
    assert_eq!(resolve_agent_id(&obj(vec![])), None);
}

#[test]
fn agent_records_lose_permission_rows() {
    let mut a = obj(vec![("id", JsonValue::Int(1)), ("claims", s("c")), ("name", s("Sam")), ("access_control", s("a"))]);
    strip_agent_bloat(&mut a);
    assert_eq!(keys(&a), vec!["id", "name"]);
}

#[test]
fn report_filters_are_read_in_order_with_errors() {
    assert_eq!(report_filters(&obj(vec![])).unwrap().len(), 0);
    let f = obj(vec![
        ("fieldname", s("client")),
        ("stringruletype", JsonValue::Int(2)),
        ("stringrulevalues", JsonValue::Array(vec![s("Acme"), JsonValue::Int(3), s("Beta")])),
    ]);
    let got = report_filters(&obj(vec![("filters", JsonValue::Array(vec![f]))])).unwrap();
    assert_eq!(got.len(), 1);
    assert_eq!(keys(&got[0]), vec!["fieldname", "stringruletype", "stringrulevalues"]);
    match member(&got[0], "stringrulevalues") {
        Some(JsonValue::Array(vs)) => {
            assert_eq!(vs.len(), 2);
            assert_eq!(as_str(member(&vs[1], "value")), Some("Beta"));
            assert_eq!(as_str(member(&vs[1], "label")), Some("Beta"));
        }
        _ => panic!("expected the rule values"),
    }
    let missing_type = obj(vec![("fieldname", s("x")), ("stringrulevalues", JsonValue::Array(vec![]))]);
    let missing_name = obj(vec![]);
    assert_eq!(
        report_filters(&obj(vec![("filters", JsonValue::Array(vec![missing_type, missing_name]))])).unwrap_err(),
        "filters[].stringruletype is required"
    );
    assert_eq!(
        report_filters(&obj(vec![("filters", JsonValue::Array(vec![obj(vec![])]))])).unwrap_err(),
        "filters[].fieldname is required"
    );
    let no_values = obj(vec![("fieldname", s("x")), ("stringruletype", JsonValue::Int(1))]);
    assert_eq!(
        report_filters(&obj(vec![("filters", JsonValue::Array(vec![no_values]))])).unwrap_err(),
        "filters[].stringrulevalues is required"
    );
}
