use vstd::prelude::*;

use crate::text::{concat_str, str_eq};
use crate::halopsa::TicketFilter;
use crate::schemas::{HALO_TOOL_COUNT, halo_tool_name, halo_tool_name_str};
use crate::json::{JsonValue, model, spec_arg_i64, spec_arg_str, spec_arg_bool, spec_get, spec_as_i64, arg_i64, arg_str, arg_bool, get, as_i64};

verus! {

/// How a tool call is served.
#[derive(Debug)]
pub enum ToolRoute {
    /// A HaloPSA tool, run against the caller's HaloPSA client.
    Halo,
    /// `semantic_search`.
    SemanticSearch,
    /// `embedding_status`.
    EmbeddingStatus,
    /// `reembed`.
    Reembed,
    /// A semantic tool while semantic search is disabled.
    SemanticDisabled,
    /// No tool of that name.
    Unknown,
}
/// The names of the HaloPSA tools the server lists and dispatches
/// (`list_ticket_actions` is an alias of `list_actions`, `create_action`
/// one of `add_action`).
pub open spec fn is_halo_tool(n: Seq<char>) -> bool {
    exists|i: int| 0 <= i < HALO_TOOL_COUNT && #[trigger] halo_tool_name(i) == n
}

/// Routes a tool call by name. The three semantic tools need semantic
/// search to be enabled.
pub open spec fn spec_tool_route(name: Seq<char>, semantic_enabled: bool) -> ToolRoute {
    if is_halo_tool(name) {
        ToolRoute::Halo
    } else if name == "semantic_search"@ || name == "embedding_status"@ || name == "reembed"@ {
        if !semantic_enabled {
            ToolRoute::SemanticDisabled
        } else if name == "semantic_search"@ {
            ToolRoute::SemanticSearch
        } else if name == "embedding_status"@ {
            ToolRoute::EmbeddingStatus
        } else {
            ToolRoute::Reembed
        }
    } else {
        ToolRoute::Unknown
    }
}

/// Decides how to serve a call of the tool `name`.
pub fn tool_route(name: &str, semantic_enabled: bool) -> (r: ToolRoute)
    ensures
        r == spec_tool_route(name@, semantic_enabled),
{
    let mut i: usize = 0;
    while i < HALO_TOOL_COUNT
        invariant
            0 <= i <= HALO_TOOL_COUNT,
            forall|j: int| 0 <= j < i ==> #[trigger] halo_tool_name(j) != name@,
        decreases HALO_TOOL_COUNT - i,
    {
        if str_eq(name, halo_tool_name_str(i)) {
            proof {
                assert(halo_tool_name(i as int) == name@);
            }
            return ToolRoute::Halo;
        }
        i = i + 1;
    }
    let search = str_eq(name, "semantic_search");
    let status = str_eq(name, "embedding_status");
    let reembed = str_eq(name, "reembed");
    if !(search || status || reembed) {
        ToolRoute::Unknown
    } else if !semantic_enabled {
        ToolRoute::SemanticDisabled
    } else if search {
        ToolRoute::SemanticSearch
    } else if status {
        ToolRoute::EmbeddingStatus
    } else {
        ToolRoute::Reembed
    }
}

/// The error a call of an unknown tool gets: `"Unknown tool: {name}"`.
pub fn unknown_tool_message(name: &str) -> (r: String)
    ensures
        r@ == "Unknown tool: "@ + name@,
{
    concat_str("Unknown tool: ", name)
}

/// The error a semantic tool gets while semantic search is disabled.
pub fn semantic_disabled_message() -> (r: String)
    ensures
        r@ == "Semantic search not enabled"@,
{
    "Semantic search not enabled".to_owned()
}

/// The page and page size of a listing call: `page` (default 1) and
/// `page_size` (default 50).
pub fn page_args(args: &JsonValue) -> (r: (i64, i64))
    ensures
        r.0 == match spec_arg_i64(model(*args), "page"@) {
            Some(p) => p,
            None => 1,
        },
        r.1 == match spec_arg_i64(model(*args), "page_size"@) {
            Some(p) => p,
            None => 50,
        },
{
    let page = match arg_i64(args, "page") {
        Some(p) => p,
        None => 1,
    };
    let page_size = match arg_i64(args, "page_size") {
        Some(p) => p,
        None => 50,
    };
    (page, page_size)
}

pub open spec fn opt_view(o: Option<String>) -> Option<Seq<char>> {
    match o {
        Some(s) => Some(s@),
        None => None,
    }
}

/// The ticket filter of a `list_tickets` call: each filter argument read as
/// given, `open_only` false where absent.
pub fn ticket_filter_from_args(args: &JsonValue) -> (r: TicketFilter)
    ensures
        opt_view(r.search) == spec_arg_str(model(*args), "search"@),
        r.agent_id == spec_arg_i64(model(*args), "agent_id"@),
        r.team_id == spec_arg_i64(model(*args), "team_id"@),
        r.client_id == spec_arg_i64(model(*args), "client_id"@),
        r.status_id == spec_arg_i64(model(*args), "status_id"@),
        r.tickettype_id == spec_arg_i64(model(*args), "tickettype_id"@),
        r.open_only == (spec_arg_bool(model(*args), "open_only"@) == Some(true)),
        opt_view(r.priority) == spec_arg_str(model(*args), "priority"@),
        r.ticketarea_id == spec_arg_i64(model(*args), "ticketarea_id"@),
        r.parent_id == spec_arg_i64(model(*args), "parent_id"@),
{
    TicketFilter {
        search: arg_str(args, "search"),
        agent_id: arg_i64(args, "agent_id"),
        team_id: arg_i64(args, "team_id"),
        client_id: arg_i64(args, "client_id"),
        status_id: arg_i64(args, "status_id"),
        tickettype_id: arg_i64(args, "tickettype_id"),
        open_only: match arg_bool(args, "open_only") {
            Some(b) => b,
            None => false,
        },
        priority: arg_str(args, "priority"),
        ticketarea_id: arg_i64(args, "ticketarea_id"),
        parent_id: arg_i64(args, "parent_id"),
    }
}

/// The agent id of a `get_me` reply: the first of `agentid`, `agent_id`
/// and `id` that is present, read as an integer (no fallback past a present
/// member that is not one).
pub open spec fn spec_agent_id(me: crate::json::JsonModel) -> Option<i64> {
    match spec_get(me, "agentid"@) {
        Some(x) => spec_as_i64(x),
        None => match spec_get(me, "agent_id"@) {
            Some(x) => spec_as_i64(x),
            None => match spec_get(me, "id"@) {
                Some(x) => spec_as_i64(x),
                None => None,
            },
        },
    }
}

/// Resolves the caller's agent id for `list_my_tickets`.
pub fn resolve_agent_id(me: &JsonValue) -> (r: Option<i64>)
    ensures
        r == spec_agent_id(model(*me)),
{
    let found = match get(me, "agentid") {
        Some(x) => Some(x),
        None => match get(me, "agent_id") {
            Some(x) => Some(x),
            None => get(me, "id"),
        },
    };
    match found {
        Some(x) => as_i64(x),
        None => None,
    }
}

} // verus!
