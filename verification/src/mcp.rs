use vstd::prelude::*;

use crate::text::{concat_str, str_eq};

verus! {

/// The MCP protocol revision the server speaks.
pub const PROTOCOL_VERSION: &'static str = "2025-03-26";

/// JSON-RPC error code for an unknown method.
pub const METHOD_NOT_FOUND: i64 = -32601;

/// The usage guide sent in the `initialize` reply.
pub open spec fn base_instructions() -> Seq<char> {
    INSTRUCTIONS_TEXT@
}

/// The extra section describing the semantic tools.
pub open spec fn semantic_instructions() -> Seq<char> {
    SEMANTIC_INSTRUCTIONS_TEXT@
}

pub const INSTRUCTIONS_TEXT: &'static str = "HaloPSA MCP Server \u{2014} interact with HaloPSA tickets, actions, and workflows.\n\n\
         IMPORTANT: All operations respect the authenticated user's HaloPSA permissions. \
         You can only see and modify tickets, queues, and clients that the user has access to.\n\n\
         ## Ticket Management\n\
         - Use `list_tickets` to find tickets with filters (by queue, agent, client, status)\n\
         - Use `get_ticket` to get full details including custom fields and workflow state\n\
         - Use `create_ticket` to create new tickets\n\
         - Use `update_ticket` to modify ticket fields\n\
         - Use `search_tickets` for keyword search\n\n\
         ## Actions & Workflow\n\
         - Use `list_actions` to see the action history on a ticket\n\
         - Use `get_available_actions` to see what workflow transitions are possible\n\
         - Use `create_action` to add notes or replies\n\
         - Use `execute_workflow_action` to transition a ticket through its workflow\n\n\
         ## Supporting Data\n\
         - Use `list_statuses`, `list_teams`, `list_ticket_types` for reference data\n\
         - Use `get_client` for client details\n\
         - Use `get_me` for the authenticated user's info\n";

pub const SEMANTIC_INSTRUCTIONS_TEXT: &'static str = "\n## Semantic Search\n\
             - Use `semantic_search` to find tickets by meaning, not just keywords\n\
             - Use `embedding_status` to check the indexing status\n\
             - Use `reembed` to trigger re-indexing of all tickets\n";

/// The server's usage instructions: the base guide, plus the semantic
/// search section when that feature is enabled.
pub fn build_instructions(semantic_enabled: bool) -> (r: String)
    ensures
        r@ == if semantic_enabled {
            base_instructions() + semantic_instructions()
        } else {
            base_instructions()
        },
{
    if semantic_enabled {
        concat_str(INSTRUCTIONS_TEXT, SEMANTIC_INSTRUCTIONS_TEXT)
    } else {
        INSTRUCTIONS_TEXT.to_owned()
    }
}

/// The JSON-RPC methods the server answers.
#[derive(Debug)]
pub enum McpMethod {
    Initialize,
    ToolsList,
    ToolsCall,
    /// `notifications/initialized`: a notification, answered with nothing.
    Initialized,
    /// Anything else: answered with `METHOD_NOT_FOUND`.
    Unknown,
}

/// Classifies a request's `method`.
pub fn classify_method(method: &str) -> (r: McpMethod)
    ensures
        r == (if method@ == "initialize"@ {
            McpMethod::Initialize
        } else if method@ == "tools/list"@ {
            McpMethod::ToolsList
        } else if method@ == "tools/call"@ {
            McpMethod::ToolsCall
        } else if method@ == "notifications/initialized"@ {
            McpMethod::Initialized
        } else {
            McpMethod::Unknown
        }),
{
    if str_eq(method, "initialize") {
        McpMethod::Initialize
    } else if str_eq(method, "tools/list") {
        McpMethod::ToolsList
    } else if str_eq(method, "tools/call") {
        McpMethod::ToolsCall
    } else if str_eq(method, "notifications/initialized") {
        McpMethod::Initialized
    } else {
        McpMethod::Unknown
    }
}

/// The text and `isError` flag of a `tools/call` reply: the tool's output,
/// or its error message flagged as an error.
pub fn tool_call_content(result: Result<String, String>) -> (r: (String, bool))
    ensures
        match result {
            Ok(t) => r == (t, false),
            Err(e) => r == (e, true),
        },
{
    match result {
        Ok(text) => (text, false),
        Err(err) => (err, true),
    }
}

} // verus!
