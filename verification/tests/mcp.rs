use halopsa_mcp::mcp::{
    build_instructions, classify_method, tool_call_content, McpMethod, INSTRUCTIONS_TEXT,
    SEMANTIC_INSTRUCTIONS_TEXT,
};

#[test]
fn instructions_add_the_semantic_section_when_enabled() {
    assert_eq!(build_instructions(false), INSTRUCTIONS_TEXT);
    assert_eq!(build_instructions(true), format!("{INSTRUCTIONS_TEXT}{SEMANTIC_INSTRUCTIONS_TEXT}"));
    assert!(INSTRUCTIONS_TEXT.starts_with("HaloPSA MCP Server"));
}

#[test]
fn methods_are_classified() {
    assert!(matches!(classify_method("initialize"), McpMethod::Initialize));
    assert!(matches!(classify_method("tools/list"), McpMethod::ToolsList));
    assert!(matches!(classify_method("tools/call"), McpMethod::ToolsCall));
    assert!(matches!(classify_method("notifications/initialized"), McpMethod::Initialized));
    assert!(matches!(classify_method("resources/list"), McpMethod::Unknown));
}

#[test]
fn tool_results_become_content() {
    assert_eq!(tool_call_content(Ok("done".to_string())), ("done".to_string(), false));
    assert_eq!(tool_call_content(Err("bad".to_string())), ("bad".to_string(), true));
}
