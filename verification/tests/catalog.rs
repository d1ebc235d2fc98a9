use halopsa_mcp::catalog::{listed_tools, semantic_tool_definitions, tool_definitions};
use halopsa_mcp::json::JsonValue;
use halopsa_mcp::tools::{tool_route, ToolRoute};

fn member<'a>(v: &'a JsonValue, key: &str) -> Option<&'a JsonValue> {
    match v {
        JsonValue::Object(es) => es.iter().find(|e| e.key == key).map(|e| &e.value),
        _ => None,
    }
}

fn text(v: Option<&JsonValue>) -> String {
    match v {
        Some(JsonValue::Str(s)) => s.clone(),
        other => panic!("not a string: {:?}", other),
    }
}

#[test]
fn catalog_lists_each_halo_tool_once() {
    let defs = tool_definitions();
    assert_eq!(defs.len(), 202);
    let mut names: Vec<String> = defs.iter().map(|d| text(member(d, "name"))).collect();
    names.sort();
    names.dedup();
    assert_eq!(names.len(), 202);
}

#[test]
fn every_listed_tool_is_routed() {
    for enabled in [false, true] {
        for d in listed_tools(enabled) {
            let name = text(member(&d, "name"));
            let r = tool_route(&name, enabled);
            assert!(!matches!(r, ToolRoute::Unknown | ToolRoute::SemanticDisabled), "{}", name);
        }
    }
}

#[test]
fn semantic_tools_listed_only_when_enabled() {
    assert_eq!(listed_tools(false).len(), 202);
    let all = listed_tools(true);
    assert_eq!(all.len(), 205);
    let tail: Vec<String> = all[202..].iter().map(|d| text(member(d, "name"))).collect();
    assert_eq!(tail, vec!["semantic_search", "embedding_status", "reembed"]);
    assert_eq!(semantic_tool_definitions().len(), 3);
}

#[test]
fn create_action_is_listed_and_routed_like_add_action() {
    assert!(matches!(tool_route("create_action", false), ToolRoute::Halo));
    let defs = tool_definitions();
    let add = defs.iter().find(|d| text(member(d, "name")) == "add_action").unwrap();
    let create = defs.iter().find(|d| text(member(d, "name")) == "create_action").unwrap();
    assert_eq!(format!("{:?}", member(add, "inputSchema")), format!("{:?}", member(create, "inputSchema")));
    let required = member(member(create, "inputSchema").unwrap(), "required").unwrap();
    match required {
        JsonValue::Array(items) => {
            let names: Vec<String> = items.iter().map(|i| text(Some(i))).collect();
            assert_eq!(names, vec!["ticket_id", "note"]);
        }
        other => panic!("{:?}", other),
    }
}

#[test]
fn list_tickets_schema_has_paging_defaults() {
    let defs = tool_definitions();
    assert_eq!(text(member(&defs[0], "name")), "list_tickets");
    let props = member(member(&defs[0], "inputSchema").unwrap(), "properties").unwrap();
    let page = member(props, "page").unwrap();
    assert!(matches!(member(page, "default"), Some(JsonValue::Int(1))));
    assert_eq!(text(member(page, "type")), "integer");
    let size = member(props, "page_size").unwrap();
    assert!(matches!(member(size, "default"), Some(JsonValue::Int(50))));
}
