use halopsa_mcp::json::{JsonEntry, JsonValue};
use halopsa_mcp::tools::{
    page_args, semantic_disabled_message, ticket_filter_from_args, tool_route, unknown_tool_message,
    ToolRoute,
};

fn obj(members: Vec<(&str, JsonValue)>) -> JsonValue {
    JsonValue::Object(
        members
            .into_iter()
            .map(|(k, v)| JsonEntry { key: k.to_string(), value: v })
            .collect(),
    )
}

#[test]
fn tools_are_routed_by_name() {
    assert!(matches!(tool_route("list_tickets", false), ToolRoute::Halo));
    assert!(matches!(tool_route("get_ticket", true), ToolRoute::Halo));
    assert!(matches!(tool_route("semantic_search", true), ToolRoute::SemanticSearch));
    assert!(matches!(tool_route("embedding_status", true), ToolRoute::EmbeddingStatus));
    assert!(matches!(tool_route("reembed", true), ToolRoute::Reembed));
    assert!(matches!(tool_route("reembed", false), ToolRoute::SemanticDisabled));
    assert!(matches!(tool_route("drop_database", true), ToolRoute::Unknown));
    assert!(matches!(tool_route("", false), ToolRoute::Unknown));
}

#[test]
fn tool_errors() {
    assert_eq!(unknown_tool_message("nope"), "Unknown tool: nope");
    assert_eq!(semantic_disabled_message(), "Semantic search not enabled");
}

#[test]
fn paging_defaults() {
    assert_eq!(page_args(&obj(vec![])), (1, 50));
    assert_eq!(
        page_args(&obj(vec![("page", JsonValue::Int(3)), ("page_size", JsonValue::Str("9".into()))])),
        (3, 50)
    );
}

#[test]
fn ticket_filter_reads_each_argument() {
    let args = obj(vec![
        ("search", JsonValue::Str("vpn".into())),
        ("client_id", JsonValue::Int(4)),
        ("open_only", JsonValue::Bool(true)),
        ("priority", JsonValue::Str("High".into())),
        ("team_id", JsonValue::Str("not a number".into())),
    ]);
    let f = ticket_filter_from_args(&args);
    assert_eq!(f.search.as_deref(), Some("vpn"));
    assert_eq!(f.client_id, Some(4));
    assert_eq!(f.team_id, None);
    assert!(f.open_only);
    assert_eq!(f.priority.as_deref(), Some("High"));
    assert_eq!(f.parent_id, None);
    assert!(!ticket_filter_from_args(&obj(vec![])).open_only);
}
