use vstd::prelude::*;

use crate::json::{JsonEntry, JsonModel, JsonValue, model};
use crate::catalog::{json_str, prop, prop_default, push_item, push_member, spec_prop, spec_prop_default};

verus! {

/// The number of HaloPSA tools the server lists and dispatches.
pub const HALO_TOOL_COUNT: usize = 202;

/// The input schema of `list_tickets`.
pub open spec fn schema_list_tickets() -> JsonModel {
    JsonModel::Object(Seq::empty()
        .push(("type"@, JsonModel::Str("object"@)))
        .push(("properties"@, JsonModel::Object(Seq::empty()
            .push(("page"@, spec_prop_default("integer"@, "Page number (default 1)"@, JsonModel::Int(1))))
            .push(("page_size"@, spec_prop_default("integer"@, "Results per page (1-100, default 50)"@, JsonModel::Int(50))))
            .push(("search"@, spec_prop("string"@, "Keyword search across ticket summary and details"@)))
            .push(("agent_id"@, spec_prop("integer"@, "Filter by assigned agent ID"@)))
            .push(("team_id"@, spec_prop("integer"@, "Filter by team/queue ID"@)))
            .push(("client_id"@, spec_prop("integer"@, "Filter by client ID"@)))
            .push(("status_id"@, spec_prop("integer"@, "Filter by status ID"@)))
            .push(("tickettype_id"@, spec_prop("integer"@, "Filter by ticket type ID"@)))
            .push(("open_only"@, spec_prop_default("boolean"@, "Only return open tickets (default false)"@, JsonModel::Bool(false))))
            .push(("priority"@, spec_prop("string"@, "Filter by priority label (e.g. \"P3\", \"High\"). Priority labels are environment-specific — Sandbox uses P1-P5, Production uses named levels like High/Critical/RFO. Use list_statuses or check a real ticket to find valid labels for this instance."@)))))))
}

fn build_schema_list_tickets() -> (r: JsonValue)
    ensures
        model(r) == schema_list_tickets(),
{
    let mut o1: Vec<JsonEntry> = Vec::new();
    push_member(&mut o1, "type", json_str("object"));
    let mut o2: Vec<JsonEntry> = Vec::new();
    push_member(&mut o2, "page", prop_default("integer", "Page number (default 1)", JsonValue::Int(1)));
    push_member(&mut o2, "page_size", prop_default("integer", "Results per page (1-100, default 50)", JsonValue::Int(50)));
    push_member(&mut o2, "search", prop("string", "Keyword search across ticket summary and details"));
    push_member(&mut o2, "agent_id", prop("integer", "Filter by assigned agent ID"));
    push_member(&mut o2, "team_id", prop("integer", "Filter by team/queue ID"));
    push_member(&mut o2, "client_id", prop("integer", "Filter by client ID"));
    push_member(&mut o2, "status_id", prop("integer", "Filter by status ID"));
    push_member(&mut o2, "tickettype_id", prop("integer", "Filter by ticket type ID"));
    push_member(&mut o2, "open_only", prop_default("boolean", "Only return open tickets (default false)", JsonValue::Bool(false)));
    push_member(&mut o2, "priority", prop("string", "Filter by priority label (e.g. \"P3\", \"High\"). Priority labels are environment-specific — Sandbox uses P1-P5, Production uses named levels like High/Critical/RFO. Use list_statuses or check a real ticket to find valid labels for this instance."));
    push_member(&mut o1, "properties", JsonValue::Object(o2));
    JsonValue::Object(o1)
}

/// The input schema of `get_ticket`.
pub open spec fn schema_get_ticket() -> JsonModel {
    JsonModel::Object(Seq::empty()
        .push(("type"@, JsonModel::Str("object"@)))
        .push(("properties"@, JsonModel::Object(Seq::empty()
            .push(("ticket_id"@, spec_prop("integer"@, "The ticket ID"@))))))
        .push(("required"@, JsonModel::Array(Seq::empty()
            .push(JsonModel::Str("ticket_id"@))))))
}

fn build_schema_get_ticket() -> (r: JsonValue)
    ensures
        model(r) == schema_get_ticket(),
{
    let mut o1: Vec<JsonEntry> = Vec::new();
    push_member(&mut o1, "type", json_str("object"));
    let mut o2: Vec<JsonEntry> = Vec::new();
    push_member(&mut o2, "ticket_id", prop("integer", "The ticket ID"));
    push_member(&mut o1, "properties", JsonValue::Object(o2));
    let mut a3: Vec<JsonValue> = Vec::new();
    push_item(&mut a3, json_str("ticket_id"));
    push_member(&mut o1, "required", JsonValue::Array(a3));
    JsonValue::Object(o1)
}

/// The input schema of `create_ticket`.
pub open spec fn schema_create_ticket() -> JsonModel {
    JsonModel::Object(Seq::empty()
        .push(("type"@, JsonModel::Str("object"@)))
        .push(("properties"@, JsonModel::Object(Seq::empty()
            .push(("summary"@, spec_prop("string"@, "Ticket subject/summary"@)))
            .push(("details"@, spec_prop("string"@, "Ticket description/details (can include HTML)"@)))
            .push(("client_id"@, spec_prop("integer"@, "Client ID the ticket belongs to"@)))
            .push(("tickettype_id"@, spec_prop("integer"@, "Ticket type ID"@)))
            .push(("site_id"@, spec_prop("integer"@, "Site ID"@)))
            .push(("user_id"@, spec_prop("integer"@, "End user/contact ID"@)))
            .push(("agent_id"@, spec_prop("integer"@, "Assign to this agent"@)))
            .push(("team_id"@, spec_prop("integer"@, "Assign to this team/queue"@)))
            .push(("priority_id"@, spec_prop("integer"@, "Priority ID"@)))
            .push(("category_1"@, spec_prop("string"@, "Primary category"@)))
            .push(("category_2"@, spec_prop("string"@, "Secondary category"@)))
            .push(("category_3"@, spec_prop("string"@, "Tertiary category"@))))))
        .push(("required"@, JsonModel::Array(Seq::empty()
            .push(JsonModel::Str("summary"@))
            .push(JsonModel::Str("client_id"@))))))
}

fn build_schema_create_ticket() -> (r: JsonValue)
    ensures
        model(r) == schema_create_ticket(),
{
    let mut o1: Vec<JsonEntry> = Vec::new();
    push_member(&mut o1, "type", json_str("object"));
    let mut o2: Vec<JsonEntry> = Vec::new();
    push_member(&mut o2, "summary", prop("string", "Ticket subject/summary"));
    push_member(&mut o2, "details", prop("string", "Ticket description/details (can include HTML)"));
    push_member(&mut o2, "client_id", prop("integer", "Client ID the ticket belongs to"));
    push_member(&mut o2, "tickettype_id", prop("integer", "Ticket type ID"));
    push_member(&mut o2, "site_id", prop("integer", "Site ID"));
    push_member(&mut o2, "user_id", prop("integer", "End user/contact ID"));
    push_member(&mut o2, "agent_id", prop("integer", "Assign to this agent"));
    push_member(&mut o2, "team_id", prop("integer", "Assign to this team/queue"));
    push_member(&mut o2, "priority_id", prop("integer", "Priority ID"));
    push_member(&mut o2, "category_1", prop("string", "Primary category"));
    push_member(&mut o2, "category_2", prop("string", "Secondary category"));
    push_member(&mut o2, "category_3", prop("string", "Tertiary category"));
    push_member(&mut o1, "properties", JsonValue::Object(o2));
    let mut a3: Vec<JsonValue> = Vec::new();
    push_item(&mut a3, json_str("summary"));
    push_item(&mut a3, json_str("client_id"));
    push_member(&mut o1, "required", JsonValue::Array(a3));
    JsonValue::Object(o1)
}

/// The input schema of `update_ticket`.
pub open spec fn schema_update_ticket() -> JsonModel {
    JsonModel::Object(Seq::empty()
        .push(("type"@, JsonModel::Str("object"@)))
        .push(("properties"@, JsonModel::Object(Seq::empty()
            .push(("ticket_id"@, spec_prop("integer"@, "The ticket ID to update"@)))
            .push(("summary"@, spec_prop("string"@, "New ticket summary"@)))
            .push(("details"@, spec_prop("string"@, "New ticket details"@)))
            .push(("agent_id"@, spec_prop("integer"@, "Reassign to this agent"@)))
            .push(("team_id"@, spec_prop("integer"@, "Move to this team/queue"@)))
            .push(("status_id"@, spec_prop("integer"@, "Change status"@)))
            .push(("priority_id"@, spec_prop("integer"@, "Change priority"@)))
            .push(("category_1"@, spec_prop("string"@, "Change primary category"@)))
            .push(("category_2"@, spec_prop("string"@, "Change secondary category"@)))
            .push(("category_3"@, spec_prop("string"@, "Change tertiary category"@))))))
        .push(("required"@, JsonModel::Array(Seq::empty()
            .push(JsonModel::Str("ticket_id"@))))))
}

fn build_schema_update_ticket() -> (r: JsonValue)
    ensures
        model(r) == schema_update_ticket(),
{
    let mut o1: Vec<JsonEntry> = Vec::new();
    push_member(&mut o1, "type", json_str("object"));
    let mut o2: Vec<JsonEntry> = Vec::new();
    push_member(&mut o2, "ticket_id", prop("integer", "The ticket ID to update"));
    push_member(&mut o2, "summary", prop("string", "New ticket summary"));
    push_member(&mut o2, "details", prop("string", "New ticket details"));
    push_member(&mut o2, "agent_id", prop("integer", "Reassign to this agent"));
    push_member(&mut o2, "team_id", prop("integer", "Move to this team/queue"));
    push_member(&mut o2, "status_id", prop("integer", "Change status"));
    push_member(&mut o2, "priority_id", prop("integer", "Change priority"));
    push_member(&mut o2, "category_1", prop("string", "Change primary category"));
    push_member(&mut o2, "category_2", prop("string", "Change secondary category"));
    push_member(&mut o2, "category_3", prop("string", "Change tertiary category"));
    push_member(&mut o1, "properties", JsonValue::Object(o2));
    let mut a3: Vec<JsonValue> = Vec::new();
    push_item(&mut a3, json_str("ticket_id"));
    push_member(&mut o1, "required", JsonValue::Array(a3));
    JsonValue::Object(o1)
}

/// The input schema of `search_tickets`.
pub open spec fn schema_search_tickets() -> JsonModel {
    JsonModel::Object(Seq::empty()
        .push(("type"@, JsonModel::Str("object"@)))
        .push(("properties"@, JsonModel::Object(Seq::empty()
            .push(("query"@, spec_prop("string"@, "Search query"@)))
            .push(("page_size"@, spec_prop_default("integer"@, "Max results (default 20)"@, JsonModel::Int(20)))))))
        .push(("required"@, JsonModel::Array(Seq::empty()
            .push(JsonModel::Str("query"@))))))
}

fn build_schema_search_tickets() -> (r: JsonValue)
    ensures
        model(r) == schema_search_tickets(),
{
    let mut o1: Vec<JsonEntry> = Vec::new();
    push_member(&mut o1, "type", json_str("object"));
    let mut o2: Vec<JsonEntry> = Vec::new();
    push_member(&mut o2, "query", prop("string", "Search query"));
    push_member(&mut o2, "page_size", prop_default("integer", "Max results (default 20)", JsonValue::Int(20)));
    push_member(&mut o1, "properties", JsonValue::Object(o2));
    let mut a3: Vec<JsonValue> = Vec::new();
    push_item(&mut a3, json_str("query"));
    push_member(&mut o1, "required", JsonValue::Array(a3));
    JsonValue::Object(o1)
}

/// The input schema of `list_open_tickets`.
pub open spec fn schema_list_open_tickets() -> JsonModel {
    JsonModel::Object(Seq::empty()
        .push(("type"@, JsonModel::Str("object"@)))
        .push(("properties"@, JsonModel::Object(Seq::empty()
            .push(("page"@, spec_prop_default("integer"@, "Page number (default 1)"@, JsonModel::Int(1))))
            .push(("page_size"@, spec_prop_default("integer"@, "Results per page (1-100, default 50)"@, JsonModel::Int(50))))))))
}

fn build_schema_list_open_tickets() -> (r: JsonValue)
    ensures
        model(r) == schema_list_open_tickets(),
{
    let mut o1: Vec<JsonEntry> = Vec::new();
    push_member(&mut o1, "type", json_str("object"));
    let mut o2: Vec<JsonEntry> = Vec::new();
    push_member(&mut o2, "page", prop_default("integer", "Page number (default 1)", JsonValue::Int(1)));
    push_member(&mut o2, "page_size", prop_default("integer", "Results per page (1-100, default 50)", JsonValue::Int(50)));
    push_member(&mut o1, "properties", JsonValue::Object(o2));
    JsonValue::Object(o1)
}

/// The input schema of `list_tickets_by_client`.
pub open spec fn schema_list_tickets_by_client() -> JsonModel {
    JsonModel::Object(Seq::empty()
        .push(("type"@, JsonModel::Str("object"@)))
        .push(("properties"@, JsonModel::Object(Seq::empty()
            .push(("client_id"@, spec_prop("integer"@, "The client ID"@)))
            .push(("page"@, spec_prop_default("integer"@, "Page number (default 1)"@, JsonModel::Int(1))))
            .push(("page_size"@, spec_prop_default("integer"@, "Results per page (1-100, default 50)"@, JsonModel::Int(50)))))))
        .push(("required"@, JsonModel::Array(Seq::empty()
            .push(JsonModel::Str("client_id"@))))))
}

fn build_schema_list_tickets_by_client() -> (r: JsonValue)
    ensures
        model(r) == schema_list_tickets_by_client(),
{
    let mut o1: Vec<JsonEntry> = Vec::new();
    push_member(&mut o1, "type", json_str("object"));
    let mut o2: Vec<JsonEntry> = Vec::new();
    push_member(&mut o2, "client_id", prop("integer", "The client ID"));
    push_member(&mut o2, "page", prop_default("integer", "Page number (default 1)", JsonValue::Int(1)));
    push_member(&mut o2, "page_size", prop_default("integer", "Results per page (1-100, default 50)", JsonValue::Int(50)));
    push_member(&mut o1, "properties", JsonValue::Object(o2));
    let mut a3: Vec<JsonValue> = Vec::new();
    push_item(&mut a3, json_str("client_id"));
    push_member(&mut o1, "required", JsonValue::Array(a3));
    JsonValue::Object(o1)
}

/// The input schema of `list_high_priority_tickets`.
pub open spec fn schema_list_high_priority_tickets() -> JsonModel {
    JsonModel::Object(Seq::empty()
        .push(("type"@, JsonModel::Str("object"@)))
        .push(("properties"@, JsonModel::Object(Seq::empty()
            .push(("priority_labels"@, JsonModel::Object(Seq::empty()
                .push(("type"@, JsonModel::Str("array"@)))
                .push(("items"@, JsonModel::Object(Seq::empty()
                    .push(("type"@, JsonModel::Str("string"@))))))
                .push(("description"@, JsonModel::Str("Priority labels to include (default [\"High\", \"Critical\", \"RFO\"] — Production only, won't match in Sandbox)"@))))))
            .push(("page_size"@, spec_prop_default("integer"@, "Max results per priority label before merging (default 50)"@, JsonModel::Int(50))))))))
}

fn build_schema_list_high_priority_tickets() -> (r: JsonValue)
    ensures
        model(r) == schema_list_high_priority_tickets(),
{
    let mut o1: Vec<JsonEntry> = Vec::new();
    push_member(&mut o1, "type", json_str("object"));
    let mut o2: Vec<JsonEntry> = Vec::new();
    let mut o3: Vec<JsonEntry> = Vec::new();
    push_member(&mut o3, "type", json_str("array"));
    let mut o4: Vec<JsonEntry> = Vec::new();
    push_member(&mut o4, "type", json_str("string"));
    push_member(&mut o3, "items", JsonValue::Object(o4));
    push_member(&mut o3, "description", json_str("Priority labels to include (default [\"High\", \"Critical\", \"RFO\"] — Production only, won't match in Sandbox)"));
    push_member(&mut o2, "priority_labels", JsonValue::Object(o3));
    push_member(&mut o2, "page_size", prop_default("integer", "Max results per priority label before merging (default 50)", JsonValue::Int(50)));
    push_member(&mut o1, "properties", JsonValue::Object(o2));
    JsonValue::Object(o1)
}

/// The input schema of `list_unassigned_tickets`.
pub open spec fn schema_list_unassigned_tickets() -> JsonModel {
    JsonModel::Object(Seq::empty()
        .push(("type"@, JsonModel::Str("object"@)))
        .push(("properties"@, JsonModel::Object(Seq::empty()
            .push(("page"@, spec_prop_default("integer"@, "Page number (default 1)"@, JsonModel::Int(1))))
            .push(("page_size"@, spec_prop_default("integer"@, "Results per page (1-100, default 50)"@, JsonModel::Int(50))))))))
}

fn build_schema_list_unassigned_tickets() -> (r: JsonValue)
    ensures
        model(r) == schema_list_unassigned_tickets(),
{
    let mut o1: Vec<JsonEntry> = Vec::new();
    push_member(&mut o1, "type", json_str("object"));
    let mut o2: Vec<JsonEntry> = Vec::new();
    push_member(&mut o2, "page", prop_default("integer", "Page number (default 1)", JsonValue::Int(1)));
    push_member(&mut o2, "page_size", prop_default("integer", "Results per page (1-100, default 50)", JsonValue::Int(50)));
    push_member(&mut o1, "properties", JsonValue::Object(o2));
    JsonValue::Object(o1)
}

/// The input schema of `list_my_tickets`.
pub open spec fn schema_list_my_tickets() -> JsonModel {
    JsonModel::Object(Seq::empty()
        .push(("type"@, JsonModel::Str("object"@)))
        .push(("properties"@, JsonModel::Object(Seq::empty()
            .push(("page"@, spec_prop_default("integer"@, "Page number (default 1)"@, JsonModel::Int(1))))
            .push(("page_size"@, spec_prop_default("integer"@, "Results per page (1-100, default 50)"@, JsonModel::Int(50))))))))
}

fn build_schema_list_my_tickets() -> (r: JsonValue)
    ensures
        model(r) == schema_list_my_tickets(),
{
    let mut o1: Vec<JsonEntry> = Vec::new();
    push_member(&mut o1, "type", json_str("object"));
    let mut o2: Vec<JsonEntry> = Vec::new();
    push_member(&mut o2, "page", prop_default("integer", "Page number (default 1)", JsonValue::Int(1)));
    push_member(&mut o2, "page_size", prop_default("integer", "Results per page (1-100, default 50)", JsonValue::Int(50)));
    push_member(&mut o1, "properties", JsonValue::Object(o2));
    JsonValue::Object(o1)
}

/// The input schema of `list_actions`.
pub open spec fn schema_list_actions() -> JsonModel {
    JsonModel::Object(Seq::empty()
        .push(("type"@, JsonModel::Str("object"@)))
        .push(("properties"@, JsonModel::Object(Seq::empty()
            .push(("ticket_id"@, spec_prop("integer"@, "The ticket ID"@)))
            .push(("include_private"@, spec_prop_default("boolean"@, "Include private/internal notes (default false)"@, JsonModel::Bool(false)))))))
        .push(("required"@, JsonModel::Array(Seq::empty()
            .push(JsonModel::Str("ticket_id"@))))))
}

fn build_schema_list_actions() -> (r: JsonValue)
    ensures
        model(r) == schema_list_actions(),
{
    let mut o1: Vec<JsonEntry> = Vec::new();
    push_member(&mut o1, "type", json_str("object"));
    let mut o2: Vec<JsonEntry> = Vec::new();
    push_member(&mut o2, "ticket_id", prop("integer", "The ticket ID"));
    push_member(&mut o2, "include_private", prop_default("boolean", "Include private/internal notes (default false)", JsonValue::Bool(false)));
    push_member(&mut o1, "properties", JsonValue::Object(o2));
    let mut a3: Vec<JsonValue> = Vec::new();
    push_item(&mut a3, json_str("ticket_id"));
    push_member(&mut o1, "required", JsonValue::Array(a3));
    JsonValue::Object(o1)
}

/// The input schema of `add_action`.
pub open spec fn schema_add_action() -> JsonModel {
    JsonModel::Object(Seq::empty()
        .push(("type"@, JsonModel::Str("object"@)))
        .push(("properties"@, JsonModel::Object(Seq::empty()
            .push(("ticket_id"@, spec_prop("integer"@, "The ticket ID"@)))
            .push(("note"@, spec_prop("string"@, "The note/reply content"@)))
            .push(("outcome"@, spec_prop_default("string"@, "Action outcome (default 'note')"@, JsonModel::Str("note"@))))
            .push(("workflow_action_id"@, spec_prop("integer"@, "Workflow action ID to execute (from get_available_actions)"@)))
            .push(("hidden_from_user"@, spec_prop_default("boolean"@, "Hide this note from end users (default false)"@, JsonModel::Bool(false)))))))
        .push(("required"@, JsonModel::Array(Seq::empty()
            .push(JsonModel::Str("ticket_id"@))
            .push(JsonModel::Str("note"@))))))
}

fn build_schema_add_action() -> (r: JsonValue)
    ensures
        model(r) == schema_add_action(),
{
    let mut o1: Vec<JsonEntry> = Vec::new();
    push_member(&mut o1, "type", json_str("object"));
    let mut o2: Vec<JsonEntry> = Vec::new();
    push_member(&mut o2, "ticket_id", prop("integer", "The ticket ID"));
    push_member(&mut o2, "note", prop("string", "The note/reply content"));
    push_member(&mut o2, "outcome", prop_default("string", "Action outcome (default 'note')", json_str("note")));
    push_member(&mut o2, "workflow_action_id", prop("integer", "Workflow action ID to execute (from get_available_actions)"));
    push_member(&mut o2, "hidden_from_user", prop_default("boolean", "Hide this note from end users (default false)", JsonValue::Bool(false)));
    push_member(&mut o1, "properties", JsonValue::Object(o2));
    let mut a3: Vec<JsonValue> = Vec::new();
    push_item(&mut a3, json_str("ticket_id"));
    push_item(&mut a3, json_str("note"));
    push_member(&mut o1, "required", JsonValue::Array(a3));
    JsonValue::Object(o1)
}

/// The input schema of `create_action`.
pub open spec fn schema_create_action() -> JsonModel {
    JsonModel::Object(Seq::empty()
        .push(("type"@, JsonModel::Str("object"@)))
        .push(("properties"@, JsonModel::Object(Seq::empty()
            .push(("ticket_id"@, spec_prop("integer"@, "The ticket ID"@)))
            .push(("note"@, spec_prop("string"@, "The note/reply content"@)))
            .push(("outcome"@, spec_prop_default("string"@, "Action outcome (default 'note')"@, JsonModel::Str("note"@))))
            .push(("workflow_action_id"@, spec_prop("integer"@, "Workflow action ID to execute (from get_available_actions)"@)))
            .push(("hidden_from_user"@, spec_prop_default("boolean"@, "Hide this note from end users (default false)"@, JsonModel::Bool(false)))))))
        .push(("required"@, JsonModel::Array(Seq::empty()
            .push(JsonModel::Str("ticket_id"@))
            .push(JsonModel::Str("note"@))))))
}

fn build_schema_create_action() -> (r: JsonValue)
    ensures
        model(r) == schema_create_action(),
{
    let mut o1: Vec<JsonEntry> = Vec::new();
    push_member(&mut o1, "type", json_str("object"));
    let mut o2: Vec<JsonEntry> = Vec::new();
    push_member(&mut o2, "ticket_id", prop("integer", "The ticket ID"));
    push_member(&mut o2, "note", prop("string", "The note/reply content"));
    push_member(&mut o2, "outcome", prop_default("string", "Action outcome (default 'note')", json_str("note")));
    push_member(&mut o2, "workflow_action_id", prop("integer", "Workflow action ID to execute (from get_available_actions)"));
    push_member(&mut o2, "hidden_from_user", prop_default("boolean", "Hide this note from end users (default false)", JsonValue::Bool(false)));
    push_member(&mut o1, "properties", JsonValue::Object(o2));
    let mut a3: Vec<JsonValue> = Vec::new();
    push_item(&mut a3, json_str("ticket_id"));
    push_item(&mut a3, json_str("note"));
    push_member(&mut o1, "required", JsonValue::Array(a3));
    JsonValue::Object(o1)
}

/// The input schema of `send_email_reply`.
pub open spec fn schema_send_email_reply() -> JsonModel {
    JsonModel::Object(Seq::empty()
        .push(("type"@, JsonModel::Str("object"@)))
        .push(("properties"@, JsonModel::Object(Seq::empty()
            .push(("ticket_id"@, spec_prop("integer"@, "The ticket ID"@)))
            .push(("message"@, spec_prop("string"@, "The reply message content"@))))))
        .push(("required"@, JsonModel::Array(Seq::empty()
            .push(JsonModel::Str("ticket_id"@))
            .push(JsonModel::Str("message"@))))))
}

fn build_schema_send_email_reply() -> (r: JsonValue)
    ensures
        model(r) == schema_send_email_reply(),
{
    let mut o1: Vec<JsonEntry> = Vec::new();
    push_member(&mut o1, "type", json_str("object"));
    let mut o2: Vec<JsonEntry> = Vec::new();
    push_member(&mut o2, "ticket_id", prop("integer", "The ticket ID"));
    push_member(&mut o2, "message", prop("string", "The reply message content"));
    push_member(&mut o1, "properties", JsonValue::Object(o2));
    let mut a3: Vec<JsonValue> = Vec::new();
    push_item(&mut a3, json_str("ticket_id"));
    push_item(&mut a3, json_str("message"));
    push_member(&mut o1, "required", JsonValue::Array(a3));
    JsonValue::Object(o1)
}

/// The input schema of `add_internal_note`.
pub open spec fn schema_add_internal_note() -> JsonModel {
    JsonModel::Object(Seq::empty()
        .push(("type"@, JsonModel::Str("object"@)))
        .push(("properties"@, JsonModel::Object(Seq::empty()
            .push(("ticket_id"@, spec_prop("integer"@, "The ticket ID"@)))
            .push(("note"@, spec_prop("string"@, "The internal note content"@))))))
        .push(("required"@, JsonModel::Array(Seq::empty()
            .push(JsonModel::Str("ticket_id"@))
            .push(JsonModel::Str("note"@))))))
}

fn build_schema_add_internal_note() -> (r: JsonValue)
    ensures
        model(r) == schema_add_internal_note(),
{
    let mut o1: Vec<JsonEntry> = Vec::new();
    push_member(&mut o1, "type", json_str("object"));
    let mut o2: Vec<JsonEntry> = Vec::new();
    push_member(&mut o2, "ticket_id", prop("integer", "The ticket ID"));
    push_member(&mut o2, "note", prop("string", "The internal note content"));
    push_member(&mut o1, "properties", JsonValue::Object(o2));
    let mut a3: Vec<JsonValue> = Vec::new();
    push_item(&mut a3, json_str("ticket_id"));
    push_item(&mut a3, json_str("note"));
    push_member(&mut o1, "required", JsonValue::Array(a3));
    JsonValue::Object(o1)
}

/// The input schema of `change_ticket_status_with_note`.
pub open spec fn schema_change_ticket_status_with_note() -> JsonModel {
    JsonModel::Object(Seq::empty()
        .push(("type"@, JsonModel::Str("object"@)))
        .push(("properties"@, JsonModel::Object(Seq::empty()
            .push(("ticket_id"@, spec_prop("integer"@, "The ticket ID"@)))
            .push(("status_id"@, spec_prop("integer"@, "The new status ID (use list_statuses to find valid IDs)"@)))
            .push(("note"@, spec_prop("string"@, "Note to add alongside the status change"@)))
            .push(("hidden_from_user"@, spec_prop_default("boolean"@, "Hide the note from the end user (default false)"@, JsonModel::Bool(false)))))))
        .push(("required"@, JsonModel::Array(Seq::empty()
            .push(JsonModel::Str("ticket_id"@))
            .push(JsonModel::Str("status_id"@))
            .push(JsonModel::Str("note"@))))))
}

fn build_schema_change_ticket_status_with_note() -> (r: JsonValue)
    ensures
        model(r) == schema_change_ticket_status_with_note(),
{
    let mut o1: Vec<JsonEntry> = Vec::new();
    push_member(&mut o1, "type", json_str("object"));
    let mut o2: Vec<JsonEntry> = Vec::new();
    push_member(&mut o2, "ticket_id", prop("integer", "The ticket ID"));
    push_member(&mut o2, "status_id", prop("integer", "The new status ID (use list_statuses to find valid IDs)"));
    push_member(&mut o2, "note", prop("string", "Note to add alongside the status change"));
    push_member(&mut o2, "hidden_from_user", prop_default("boolean", "Hide the note from the end user (default false)", JsonValue::Bool(false)));
    push_member(&mut o1, "properties", JsonValue::Object(o2));
    let mut a3: Vec<JsonValue> = Vec::new();
    push_item(&mut a3, json_str("ticket_id"));
    push_item(&mut a3, json_str("status_id"));
    push_item(&mut a3, json_str("note"));
    push_member(&mut o1, "required", JsonValue::Array(a3));
    JsonValue::Object(o1)
}

/// The input schema of `list_ticket_actions`.
pub open spec fn schema_list_ticket_actions() -> JsonModel {
    JsonModel::Object(Seq::empty()
        .push(("type"@, JsonModel::Str("object"@)))
        .push(("properties"@, JsonModel::Object(Seq::empty()
            .push(("ticket_id"@, spec_prop("integer"@, "The ticket ID"@)))
            .push(("include_private"@, spec_prop_default("boolean"@, "Include private/internal notes (default false)"@, JsonModel::Bool(false)))))))
        .push(("required"@, JsonModel::Array(Seq::empty()
            .push(JsonModel::Str("ticket_id"@))))))
}

fn build_schema_list_ticket_actions() -> (r: JsonValue)
    ensures
        model(r) == schema_list_ticket_actions(),
{
    let mut o1: Vec<JsonEntry> = Vec::new();
    push_member(&mut o1, "type", json_str("object"));
    let mut o2: Vec<JsonEntry> = Vec::new();
    push_member(&mut o2, "ticket_id", prop("integer", "The ticket ID"));
    push_member(&mut o2, "include_private", prop_default("boolean", "Include private/internal notes (default false)", JsonValue::Bool(false)));
    push_member(&mut o1, "properties", JsonValue::Object(o2));
    let mut a3: Vec<JsonValue> = Vec::new();
    push_item(&mut a3, json_str("ticket_id"));
    push_member(&mut o1, "required", JsonValue::Array(a3));
    JsonValue::Object(o1)
}

/// The input schema of `log_time`.
pub open spec fn schema_log_time() -> JsonModel {
    JsonModel::Object(Seq::empty()
        .push(("type"@, JsonModel::Str("object"@)))
        .push(("properties"@, JsonModel::Object(Seq::empty()
            .push(("ticket_id"@, spec_prop("integer"@, "The ticket ID"@)))
            .push(("time_minutes"@, spec_prop("number"@, "Time spent in minutes (e.g. 30 for half an hour, 90 for 1.5 hours)"@)))
            .push(("note"@, spec_prop_default("string"@, "Description of work done (optional)"@, JsonModel::Str(""@))))
            .push(("outcome"@, spec_prop_default("string"@, "Action outcome (default 'note')"@, JsonModel::Str("note"@))))
            .push(("hidden_from_user"@, spec_prop_default("boolean"@, "Hide from end user (default true for time entries)"@, JsonModel::Bool(true)))))))
        .push(("required"@, JsonModel::Array(Seq::empty()
            .push(JsonModel::Str("ticket_id"@))
            .push(JsonModel::Str("time_minutes"@))))))
}

fn build_schema_log_time() -> (r: JsonValue)
    ensures
        model(r) == schema_log_time(),
{
    let mut o1: Vec<JsonEntry> = Vec::new();
    push_member(&mut o1, "type", json_str("object"));
    let mut o2: Vec<JsonEntry> = Vec::new();
    push_member(&mut o2, "ticket_id", prop("integer", "The ticket ID"));
    push_member(&mut o2, "time_minutes", prop("number", "Time spent in minutes (e.g. 30 for half an hour, 90 for 1.5 hours)"));
    push_member(&mut o2, "note", prop_default("string", "Description of work done (optional)", json_str("")));
    push_member(&mut o2, "outcome", prop_default("string", "Action outcome (default 'note')", json_str("note")));
    push_member(&mut o2, "hidden_from_user", prop_default("boolean", "Hide from end user (default true for time entries)", JsonValue::Bool(true)));
    push_member(&mut o1, "properties", JsonValue::Object(o2));
    let mut a3: Vec<JsonValue> = Vec::new();
    push_item(&mut a3, json_str("ticket_id"));
    push_item(&mut a3, json_str("time_minutes"));
    push_member(&mut o1, "required", JsonValue::Array(a3));
    JsonValue::Object(o1)
}

/// The input schema of `update_action`.
pub open spec fn schema_update_action() -> JsonModel {
    JsonModel::Object(Seq::empty()
        .push(("type"@, JsonModel::Str("object"@)))
        .push(("properties"@, JsonModel::Object(Seq::empty()
            .push(("ticket_id"@, spec_prop("integer"@, "The ticket ID the action belongs to"@)))
            .push(("action_id"@, spec_prop("integer"@, "The action ID to update"@)))
            .push(("note"@, spec_prop("string"@, "The new note content"@)))
            .push(("hidden_from_user"@, spec_prop("boolean"@, "Change visibility — true hides from end user"@))))))
        .push(("required"@, JsonModel::Array(Seq::empty()
            .push(JsonModel::Str("ticket_id"@))
            .push(JsonModel::Str("action_id"@))
            .push(JsonModel::Str("note"@))))))
}

fn build_schema_update_action() -> (r: JsonValue)
    ensures
        model(r) == schema_update_action(),
{
    let mut o1: Vec<JsonEntry> = Vec::new();
    push_member(&mut o1, "type", json_str("object"));
    let mut o2: Vec<JsonEntry> = Vec::new();
    push_member(&mut o2, "ticket_id", prop("integer", "The ticket ID the action belongs to"));
    push_member(&mut o2, "action_id", prop("integer", "The action ID to update"));
    push_member(&mut o2, "note", prop("string", "The new note content"));
    push_member(&mut o2, "hidden_from_user", prop("boolean", "Change visibility — true hides from end user"));
    push_member(&mut o1, "properties", JsonValue::Object(o2));
    let mut a3: Vec<JsonValue> = Vec::new();
    push_item(&mut a3, json_str("ticket_id"));
    push_item(&mut a3, json_str("action_id"));
    push_item(&mut a3, json_str("note"));
    push_member(&mut o1, "required", JsonValue::Array(a3));
    JsonValue::Object(o1)
}

/// The input schema of `delete_action`.
pub open spec fn schema_delete_action() -> JsonModel {
    JsonModel::Object(Seq::empty()
        .push(("type"@, JsonModel::Str("object"@)))
        .push(("properties"@, JsonModel::Object(Seq::empty()
            .push(("ticket_id"@, spec_prop("integer"@, "The ticket ID the action belongs to"@)))
            .push(("action_id"@, spec_prop("integer"@, "The action ID to delete"@))))))
        .push(("required"@, JsonModel::Array(Seq::empty()
            .push(JsonModel::Str("ticket_id"@))
            .push(JsonModel::Str("action_id"@))))))
}

fn build_schema_delete_action() -> (r: JsonValue)
    ensures
        model(r) == schema_delete_action(),
{
    let mut o1: Vec<JsonEntry> = Vec::new();
    push_member(&mut o1, "type", json_str("object"));
    let mut o2: Vec<JsonEntry> = Vec::new();
    push_member(&mut o2, "ticket_id", prop("integer", "The ticket ID the action belongs to"));
    push_member(&mut o2, "action_id", prop("integer", "The action ID to delete"));
    push_member(&mut o1, "properties", JsonValue::Object(o2));
    let mut a3: Vec<JsonValue> = Vec::new();
    push_item(&mut a3, json_str("ticket_id"));
    push_item(&mut a3, json_str("action_id"));
    push_member(&mut o1, "required", JsonValue::Array(a3));
    JsonValue::Object(o1)
}

/// The input schema of `get_action`.
pub open spec fn schema_get_action() -> JsonModel {
    JsonModel::Object(Seq::empty()
        .push(("type"@, JsonModel::Str("object"@)))
        .push(("properties"@, JsonModel::Object(Seq::empty()
            .push(("ticket_id"@, spec_prop("integer"@, "The ticket ID the action belongs to"@)))
            .push(("action_id"@, spec_prop("integer"@, "The action ID"@))))))
        .push(("required"@, JsonModel::Array(Seq::empty()
            .push(JsonModel::Str("ticket_id"@))
            .push(JsonModel::Str("action_id"@))))))
}

fn build_schema_get_action() -> (r: JsonValue)
    ensures
        model(r) == schema_get_action(),
{
    let mut o1: Vec<JsonEntry> = Vec::new();
    push_member(&mut o1, "type", json_str("object"));
    let mut o2: Vec<JsonEntry> = Vec::new();
    push_member(&mut o2, "ticket_id", prop("integer", "The ticket ID the action belongs to"));
    push_member(&mut o2, "action_id", prop("integer", "The action ID"));
    push_member(&mut o1, "properties", JsonValue::Object(o2));
    let mut a3: Vec<JsonValue> = Vec::new();
    push_item(&mut a3, json_str("ticket_id"));
    push_item(&mut a3, json_str("action_id"));
    push_member(&mut o1, "required", JsonValue::Array(a3));
    JsonValue::Object(o1)
}

/// The input schema of `get_available_actions`.
pub open spec fn schema_get_available_actions() -> JsonModel {
    JsonModel::Object(Seq::empty()
        .push(("type"@, JsonModel::Str("object"@)))
        .push(("properties"@, JsonModel::Object(Seq::empty()
            .push(("ticket_id"@, spec_prop("integer"@, "The ticket ID"@))))))
        .push(("required"@, JsonModel::Array(Seq::empty()
            .push(JsonModel::Str("ticket_id"@))))))
}

fn build_schema_get_available_actions() -> (r: JsonValue)
    ensures
        model(r) == schema_get_available_actions(),
{
    let mut o1: Vec<JsonEntry> = Vec::new();
    push_member(&mut o1, "type", json_str("object"));
    let mut o2: Vec<JsonEntry> = Vec::new();
    push_member(&mut o2, "ticket_id", prop("integer", "The ticket ID"));
    push_member(&mut o1, "properties", JsonValue::Object(o2));
    let mut a3: Vec<JsonValue> = Vec::new();
    push_item(&mut a3, json_str("ticket_id"));
    push_member(&mut o1, "required", JsonValue::Array(a3));
    JsonValue::Object(o1)
}

/// The input schema of `execute_workflow_action`.
pub open spec fn schema_execute_workflow_action() -> JsonModel {
    JsonModel::Object(Seq::empty()
        .push(("type"@, JsonModel::Str("object"@)))
        .push(("properties"@, JsonModel::Object(Seq::empty()
            .push(("ticket_id"@, spec_prop("integer"@, "The ticket ID"@)))
            .push(("action_id"@, spec_prop("integer"@, "The workflow action ID (from get_available_actions)"@)))
            .push(("note"@, spec_prop("string"@, "Optional note to include with the action"@))))))
        .push(("required"@, JsonModel::Array(Seq::empty()
            .push(JsonModel::Str("ticket_id"@))
            .push(JsonModel::Str("action_id"@))))))
}

fn build_schema_execute_workflow_action() -> (r: JsonValue)
    ensures
        model(r) == schema_execute_workflow_action(),
{
    let mut o1: Vec<JsonEntry> = Vec::new();
    push_member(&mut o1, "type", json_str("object"));
    let mut o2: Vec<JsonEntry> = Vec::new();
    push_member(&mut o2, "ticket_id", prop("integer", "The ticket ID"));
    push_member(&mut o2, "action_id", prop("integer", "The workflow action ID (from get_available_actions)"));
    push_member(&mut o2, "note", prop("string", "Optional note to include with the action"));
    push_member(&mut o1, "properties", JsonValue::Object(o2));
    let mut a3: Vec<JsonValue> = Vec::new();
    push_item(&mut a3, json_str("ticket_id"));
    push_item(&mut a3, json_str("action_id"));
    push_member(&mut o1, "required", JsonValue::Array(a3));
    JsonValue::Object(o1)
}

/// The input schema of `list_statuses`.
pub open spec fn schema_list_statuses() -> JsonModel {
    JsonModel::Object(Seq::empty()
        .push(("type"@, JsonModel::Str("object"@)))
        .push(("properties"@, JsonModel::Object(Seq::empty()
            .push(("status_type"@, spec_prop("string"@, "Filter by status type, e.g. \"ticket\". Omit for all statuses."@)))))))
}

fn build_schema_list_statuses() -> (r: JsonValue)
    ensures
        model(r) == schema_list_statuses(),
{
    let mut o1: Vec<JsonEntry> = Vec::new();
    push_member(&mut o1, "type", json_str("object"));
    let mut o2: Vec<JsonEntry> = Vec::new();
    push_member(&mut o2, "status_type", prop("string", "Filter by status type, e.g. \"ticket\". Omit for all statuses."));
    push_member(&mut o1, "properties", JsonValue::Object(o2));
    JsonValue::Object(o1)
}

/// The input schema of `get_status_details`.
pub open spec fn schema_get_status_details() -> JsonModel {
    JsonModel::Object(Seq::empty()
        .push(("type"@, JsonModel::Str("object"@)))
        .push(("properties"@, JsonModel::Object(Seq::empty()
            .push(("status_id"@, spec_prop("integer"@, "The status ID"@))))))
        .push(("required"@, JsonModel::Array(Seq::empty()
            .push(JsonModel::Str("status_id"@))))))
}

fn build_schema_get_status_details() -> (r: JsonValue)
    ensures
        model(r) == schema_get_status_details(),
{
    let mut o1: Vec<JsonEntry> = Vec::new();
    push_member(&mut o1, "type", json_str("object"));
    let mut o2: Vec<JsonEntry> = Vec::new();
    push_member(&mut o2, "status_id", prop("integer", "The status ID"));
    push_member(&mut o1, "properties", JsonValue::Object(o2));
    let mut a3: Vec<JsonValue> = Vec::new();
    push_item(&mut a3, json_str("status_id"));
    push_member(&mut o1, "required", JsonValue::Array(a3));
    JsonValue::Object(o1)
}

/// The input schema of `global_search`.
pub open spec fn schema_global_search() -> JsonModel {
    JsonModel::Object(Seq::empty()
        .push(("type"@, JsonModel::Str("object"@)))
        .push(("properties"@, JsonModel::Object(Seq::empty()
            .push(("query"@, spec_prop("string"@, "Search query"@)))
            .push(("count_per_entity"@, spec_prop_default("integer"@, "Max results per entity type (default 3)"@, JsonModel::Int(3)))))))
        .push(("required"@, JsonModel::Array(Seq::empty()
            .push(JsonModel::Str("query"@))))))
}

fn build_schema_global_search() -> (r: JsonValue)
    ensures
        model(r) == schema_global_search(),
{
    let mut o1: Vec<JsonEntry> = Vec::new();
    push_member(&mut o1, "type", json_str("object"));
    let mut o2: Vec<JsonEntry> = Vec::new();
    push_member(&mut o2, "query", prop("string", "Search query"));
    push_member(&mut o2, "count_per_entity", prop_default("integer", "Max results per entity type (default 3)", JsonValue::Int(3)));
    push_member(&mut o1, "properties", JsonValue::Object(o2));
    let mut a3: Vec<JsonValue> = Vec::new();
    push_item(&mut a3, json_str("query"));
    push_member(&mut o1, "required", JsonValue::Array(a3));
    JsonValue::Object(o1)
}

/// The input schema of `list_field_groups`.
pub open spec fn schema_list_field_groups() -> JsonModel {
    JsonModel::Object(Seq::empty()
        .push(("type"@, JsonModel::Str("object"@)))
        .push(("properties"@, JsonModel::Object(Seq::empty()))))
}

fn build_schema_list_field_groups() -> (r: JsonValue)
    ensures
        model(r) == schema_list_field_groups(),
{
    let mut o1: Vec<JsonEntry> = Vec::new();
    push_member(&mut o1, "type", json_str("object"));
    let mut o2: Vec<JsonEntry> = Vec::new();
    push_member(&mut o1, "properties", JsonValue::Object(o2));
    JsonValue::Object(o1)
}

/// The input schema of `list_invoices`.
pub open spec fn schema_list_invoices() -> JsonModel {
    JsonModel::Object(Seq::empty()
        .push(("type"@, JsonModel::Str("object"@)))
        .push(("properties"@, JsonModel::Object(Seq::empty()
            .push(("page"@, spec_prop_default("integer"@, "Page number (default 1)"@, JsonModel::Int(1))))
            .push(("page_size"@, spec_prop_default("integer"@, "Results per page (1-100, default 50)"@, JsonModel::Int(50))))))))
}

fn build_schema_list_invoices() -> (r: JsonValue)
    ensures
        model(r) == schema_list_invoices(),
{
    let mut o1: Vec<JsonEntry> = Vec::new();
    push_member(&mut o1, "type", json_str("object"));
    let mut o2: Vec<JsonEntry> = Vec::new();
    push_member(&mut o2, "page", prop_default("integer", "Page number (default 1)", JsonValue::Int(1)));
    push_member(&mut o2, "page_size", prop_default("integer", "Results per page (1-100, default 50)", JsonValue::Int(50)));
    push_member(&mut o1, "properties", JsonValue::Object(o2));
    JsonValue::Object(o1)
}

/// The input schema of `list_recurring_invoices`.
pub open spec fn schema_list_recurring_invoices() -> JsonModel {
    JsonModel::Object(Seq::empty()
        .push(("type"@, JsonModel::Str("object"@)))
        .push(("properties"@, JsonModel::Object(Seq::empty()
            .push(("page"@, spec_prop_default("integer"@, "Page number (default 1)"@, JsonModel::Int(1))))
            .push(("page_size"@, spec_prop_default("integer"@, "Results per page (1-100, default 50)"@, JsonModel::Int(50))))))))
}

fn build_schema_list_recurring_invoices() -> (r: JsonValue)
    ensures
        model(r) == schema_list_recurring_invoices(),
{
    let mut o1: Vec<JsonEntry> = Vec::new();
    push_member(&mut o1, "type", json_str("object"));
    let mut o2: Vec<JsonEntry> = Vec::new();
    push_member(&mut o2, "page", prop_default("integer", "Page number (default 1)", JsonValue::Int(1)));
    push_member(&mut o2, "page_size", prop_default("integer", "Results per page (1-100, default 50)", JsonValue::Int(50)));
    push_member(&mut o1, "properties", JsonValue::Object(o2));
    JsonValue::Object(o1)
}

/// The input schema of `get_recurring_invoice`.
pub open spec fn schema_get_recurring_invoice() -> JsonModel {
    JsonModel::Object(Seq::empty()
        .push(("type"@, JsonModel::Str("object"@)))
        .push(("properties"@, JsonModel::Object(Seq::empty()
            .push(("recurring_invoice_id"@, spec_prop("integer"@, "The recurring invoice ID"@))))))
        .push(("required"@, JsonModel::Array(Seq::empty()
            .push(JsonModel::Str("recurring_invoice_id"@))))))
}

fn build_schema_get_recurring_invoice() -> (r: JsonValue)
    ensures
        model(r) == schema_get_recurring_invoice(),
{
    let mut o1: Vec<JsonEntry> = Vec::new();
    push_member(&mut o1, "type", json_str("object"));
    let mut o2: Vec<JsonEntry> = Vec::new();
    push_member(&mut o2, "recurring_invoice_id", prop("integer", "The recurring invoice ID"));
    push_member(&mut o1, "properties", JsonValue::Object(o2));
    let mut a3: Vec<JsonValue> = Vec::new();
    push_item(&mut a3, json_str("recurring_invoice_id"));
    push_member(&mut o1, "required", JsonValue::Array(a3));
    JsonValue::Object(o1)
}

/// The input schema of `list_charge_rates`.
pub open spec fn schema_list_charge_rates() -> JsonModel {
    JsonModel::Object(Seq::empty()
        .push(("type"@, JsonModel::Str("object"@)))
        .push(("properties"@, JsonModel::Object(Seq::empty()))))
}

fn build_schema_list_charge_rates() -> (r: JsonValue)
    ensures
        model(r) == schema_list_charge_rates(),
{
    let mut o1: Vec<JsonEntry> = Vec::new();
    push_member(&mut o1, "type", json_str("object"));
    let mut o2: Vec<JsonEntry> = Vec::new();
    push_member(&mut o1, "properties", JsonValue::Object(o2));
    JsonValue::Object(o1)
}

/// The input schema of `list_billing_lines`.
pub open spec fn schema_list_billing_lines() -> JsonModel {
    JsonModel::Object(Seq::empty()
        .push(("type"@, JsonModel::Str("object"@)))
        .push(("properties"@, JsonModel::Object(Seq::empty()
            .push(("page"@, spec_prop_default("integer"@, "Page number (default 1)"@, JsonModel::Int(1))))
            .push(("page_size"@, spec_prop_default("integer"@, "Results per page (1-100, default 50)"@, JsonModel::Int(50))))))))
}

fn build_schema_list_billing_lines() -> (r: JsonValue)
    ensures
        model(r) == schema_list_billing_lines(),
{
    let mut o1: Vec<JsonEntry> = Vec::new();
    push_member(&mut o1, "type", json_str("object"));
    let mut o2: Vec<JsonEntry> = Vec::new();
    push_member(&mut o2, "page", prop_default("integer", "Page number (default 1)", JsonValue::Int(1)));
    push_member(&mut o2, "page_size", prop_default("integer", "Results per page (1-100, default 50)", JsonValue::Int(50)));
    push_member(&mut o1, "properties", JsonValue::Object(o2));
    JsonValue::Object(o1)
}

/// The input schema of `list_teams`.
pub open spec fn schema_list_teams() -> JsonModel {
    JsonModel::Object(Seq::empty()
        .push(("type"@, JsonModel::Str("object"@)))
        .push(("properties"@, JsonModel::Object(Seq::empty()))))
}

fn build_schema_list_teams() -> (r: JsonValue)
    ensures
        model(r) == schema_list_teams(),
{
    let mut o1: Vec<JsonEntry> = Vec::new();
    push_member(&mut o1, "type", json_str("object"));
    let mut o2: Vec<JsonEntry> = Vec::new();
    push_member(&mut o1, "properties", JsonValue::Object(o2));
    JsonValue::Object(o1)
}

/// The input schema of `list_asset_changes`.
pub open spec fn schema_list_asset_changes() -> JsonModel {
    JsonModel::Object(Seq::empty()
        .push(("type"@, JsonModel::Str("object"@)))
        .push(("properties"@, JsonModel::Object(Seq::empty()
            .push(("asset_id"@, spec_prop("integer"@, "Filter by asset ID (optional)"@)))
            .push(("count"@, spec_prop_default("integer"@, "Max results (default 200)"@, JsonModel::Int(200))))))))
}

fn build_schema_list_asset_changes() -> (r: JsonValue)
    ensures
        model(r) == schema_list_asset_changes(),
{
    let mut o1: Vec<JsonEntry> = Vec::new();
    push_member(&mut o1, "type", json_str("object"));
    let mut o2: Vec<JsonEntry> = Vec::new();
    push_member(&mut o2, "asset_id", prop("integer", "Filter by asset ID (optional)"));
    push_member(&mut o2, "count", prop_default("integer", "Max results (default 200)", JsonValue::Int(200)));
    push_member(&mut o1, "properties", JsonValue::Object(o2));
    JsonValue::Object(o1)
}

/// The input schema of `create_invoice`.
pub open spec fn schema_create_invoice() -> JsonModel {
    JsonModel::Object(Seq::empty()
        .push(("type"@, JsonModel::Str("object"@)))
        .push(("properties"@, JsonModel::Object(Seq::empty()
            .push(("fields"@, spec_prop("object"@, "Invoice fields, e.g. { \"client_id\": 1, \"invoice_date\": \"2026-07-07T00:00:00Z\", \"lines\": [...] }. invoice_date is required."@))))))
        .push(("required"@, JsonModel::Array(Seq::empty()
            .push(JsonModel::Str("fields"@))))))
}

fn build_schema_create_invoice() -> (r: JsonValue)
    ensures
        model(r) == schema_create_invoice(),
{
    let mut o1: Vec<JsonEntry> = Vec::new();
    push_member(&mut o1, "type", json_str("object"));
    let mut o2: Vec<JsonEntry> = Vec::new();
    push_member(&mut o2, "fields", prop("object", "Invoice fields, e.g. { \"client_id\": 1, \"invoice_date\": \"2026-07-07T00:00:00Z\", \"lines\": [...] }. invoice_date is required."));
    push_member(&mut o1, "properties", JsonValue::Object(o2));
    let mut a3: Vec<JsonValue> = Vec::new();
    push_item(&mut a3, json_str("fields"));
    push_member(&mut o1, "required", JsonValue::Array(a3));
    JsonValue::Object(o1)
}

/// The input schema of `void_invoice`.
pub open spec fn schema_void_invoice() -> JsonModel {
    JsonModel::Object(Seq::empty()
        .push(("type"@, JsonModel::Str("object"@)))
        .push(("properties"@, JsonModel::Object(Seq::empty()
            .push(("invoice_id"@, spec_prop("integer"@, "The invoice ID to void"@))))))
        .push(("required"@, JsonModel::Array(Seq::empty()
            .push(JsonModel::Str("invoice_id"@))))))
}

fn build_schema_void_invoice() -> (r: JsonValue)
    ensures
        model(r) == schema_void_invoice(),
{
    let mut o1: Vec<JsonEntry> = Vec::new();
    push_member(&mut o1, "type", json_str("object"));
    let mut o2: Vec<JsonEntry> = Vec::new();
    push_member(&mut o2, "invoice_id", prop("integer", "The invoice ID to void"));
    push_member(&mut o1, "properties", JsonValue::Object(o2));
    let mut a3: Vec<JsonValue> = Vec::new();
    push_item(&mut a3, json_str("invoice_id"));
    push_member(&mut o1, "required", JsonValue::Array(a3));
    JsonValue::Object(o1)
}

/// The input schema of `list_suppliers`.
pub open spec fn schema_list_suppliers() -> JsonModel {
    JsonModel::Object(Seq::empty()
        .push(("type"@, JsonModel::Str("object"@)))
        .push(("properties"@, JsonModel::Object(Seq::empty()
            .push(("count"@, spec_prop_default("integer"@, "Number of results (default 50)"@, JsonModel::Int(50))))))))
}

fn build_schema_list_suppliers() -> (r: JsonValue)
    ensures
        model(r) == schema_list_suppliers(),
{
    let mut o1: Vec<JsonEntry> = Vec::new();
    push_member(&mut o1, "type", json_str("object"));
    let mut o2: Vec<JsonEntry> = Vec::new();
    push_member(&mut o2, "count", prop_default("integer", "Number of results (default 50)", JsonValue::Int(50)));
    push_member(&mut o1, "properties", JsonValue::Object(o2));
    JsonValue::Object(o1)
}

/// The input schema of `get_supplier`.
pub open spec fn schema_get_supplier() -> JsonModel {
    JsonModel::Object(Seq::empty()
        .push(("type"@, JsonModel::Str("object"@)))
        .push(("properties"@, JsonModel::Object(Seq::empty()
            .push(("supplier_id"@, spec_prop("integer"@, "The supplier ID"@))))))
        .push(("required"@, JsonModel::Array(Seq::empty()
            .push(JsonModel::Str("supplier_id"@))))))
}

fn build_schema_get_supplier() -> (r: JsonValue)
    ensures
        model(r) == schema_get_supplier(),
{
    let mut o1: Vec<JsonEntry> = Vec::new();
    push_member(&mut o1, "type", json_str("object"));
    let mut o2: Vec<JsonEntry> = Vec::new();
    push_member(&mut o2, "supplier_id", prop("integer", "The supplier ID"));
    push_member(&mut o1, "properties", JsonValue::Object(o2));
    let mut a3: Vec<JsonValue> = Vec::new();
    push_item(&mut a3, json_str("supplier_id"));
    push_member(&mut o1, "required", JsonValue::Array(a3));
    JsonValue::Object(o1)
}

/// The input schema of `create_supplier`.
pub open spec fn schema_create_supplier() -> JsonModel {
    JsonModel::Object(Seq::empty()
        .push(("type"@, JsonModel::Str("object"@)))
        .push(("properties"@, JsonModel::Object(Seq::empty()
            .push(("fields"@, spec_prop("object"@, "Supplier fields, e.g. { \"name\": \"Acme Hardware Inc.\" }"@))))))
        .push(("required"@, JsonModel::Array(Seq::empty()
            .push(JsonModel::Str("fields"@))))))
}

fn build_schema_create_supplier() -> (r: JsonValue)
    ensures
        model(r) == schema_create_supplier(),
{
    let mut o1: Vec<JsonEntry> = Vec::new();
    push_member(&mut o1, "type", json_str("object"));
    let mut o2: Vec<JsonEntry> = Vec::new();
    push_member(&mut o2, "fields", prop("object", "Supplier fields, e.g. { \"name\": \"Acme Hardware Inc.\" }"));
    push_member(&mut o1, "properties", JsonValue::Object(o2));
    let mut a3: Vec<JsonValue> = Vec::new();
    push_item(&mut a3, json_str("fields"));
    push_member(&mut o1, "required", JsonValue::Array(a3));
    JsonValue::Object(o1)
}

/// The input schema of `create_supplier_user`.
pub open spec fn schema_create_supplier_user() -> JsonModel {
    JsonModel::Object(Seq::empty()
        .push(("type"@, JsonModel::Str("object"@)))
        .push(("properties"@, JsonModel::Object(Seq::empty()
            .push(("supplier_id"@, spec_prop("integer"@, "The supplier ID this user belongs to"@)))
            .push(("supplier_name"@, spec_prop("string"@, "The supplier's display name (must match the supplier record)"@)))
            .push(("fields"@, spec_prop("object"@, "User fields, e.g. { \"firstname\": \"Jane\", \"lastname\": \"Doe\", \"emailaddress\": \"jane@acme.com\" }"@))))))
        .push(("required"@, JsonModel::Array(Seq::empty()
            .push(JsonModel::Str("supplier_id"@))
            .push(JsonModel::Str("supplier_name"@))
            .push(JsonModel::Str("fields"@))))))
}

fn build_schema_create_supplier_user() -> (r: JsonValue)
    ensures
        model(r) == schema_create_supplier_user(),
{
    let mut o1: Vec<JsonEntry> = Vec::new();
    push_member(&mut o1, "type", json_str("object"));
    let mut o2: Vec<JsonEntry> = Vec::new();
    push_member(&mut o2, "supplier_id", prop("integer", "The supplier ID this user belongs to"));
    push_member(&mut o2, "supplier_name", prop("string", "The supplier's display name (must match the supplier record)"));
    push_member(&mut o2, "fields", prop("object", "User fields, e.g. { \"firstname\": \"Jane\", \"lastname\": \"Doe\", \"emailaddress\": \"jane@acme.com\" }"));
    push_member(&mut o1, "properties", JsonValue::Object(o2));
    let mut a3: Vec<JsonValue> = Vec::new();
    push_item(&mut a3, json_str("supplier_id"));
    push_item(&mut a3, json_str("supplier_name"));
    push_item(&mut a3, json_str("fields"));
    push_member(&mut o1, "required", JsonValue::Array(a3));
    JsonValue::Object(o1)
}

/// The input schema of `list_sales_orders`.
pub open spec fn schema_list_sales_orders() -> JsonModel {
    JsonModel::Object(Seq::empty()
        .push(("type"@, JsonModel::Str("object"@)))
        .push(("properties"@, JsonModel::Object(Seq::empty()
            .push(("client_id"@, spec_prop("integer"@, "Filter by client ID (optional)"@)))
            .push(("page"@, spec_prop_default("integer"@, "Page number (default 1)"@, JsonModel::Int(1))))
            .push(("page_size"@, spec_prop_default("integer"@, "Results per page (1-100, default 50)"@, JsonModel::Int(50))))))))
}

fn build_schema_list_sales_orders() -> (r: JsonValue)
    ensures
        model(r) == schema_list_sales_orders(),
{
    let mut o1: Vec<JsonEntry> = Vec::new();
    push_member(&mut o1, "type", json_str("object"));
    let mut o2: Vec<JsonEntry> = Vec::new();
    push_member(&mut o2, "client_id", prop("integer", "Filter by client ID (optional)"));
    push_member(&mut o2, "page", prop_default("integer", "Page number (default 1)", JsonValue::Int(1)));
    push_member(&mut o2, "page_size", prop_default("integer", "Results per page (1-100, default 50)", JsonValue::Int(50)));
    push_member(&mut o1, "properties", JsonValue::Object(o2));
    JsonValue::Object(o1)
}

/// The input schema of `get_sales_order`.
pub open spec fn schema_get_sales_order() -> JsonModel {
    JsonModel::Object(Seq::empty()
        .push(("type"@, JsonModel::Str("object"@)))
        .push(("properties"@, JsonModel::Object(Seq::empty()
            .push(("sales_order_id"@, spec_prop("integer"@, "The sales order ID"@))))))
        .push(("required"@, JsonModel::Array(Seq::empty()
            .push(JsonModel::Str("sales_order_id"@))))))
}

fn build_schema_get_sales_order() -> (r: JsonValue)
    ensures
        model(r) == schema_get_sales_order(),
{
    let mut o1: Vec<JsonEntry> = Vec::new();
    push_member(&mut o1, "type", json_str("object"));
    let mut o2: Vec<JsonEntry> = Vec::new();
    push_member(&mut o2, "sales_order_id", prop("integer", "The sales order ID"));
    push_member(&mut o1, "properties", JsonValue::Object(o2));
    let mut a3: Vec<JsonValue> = Vec::new();
    push_item(&mut a3, json_str("sales_order_id"));
    push_member(&mut o1, "required", JsonValue::Array(a3));
    JsonValue::Object(o1)
}

/// The input schema of `create_sales_order`.
pub open spec fn schema_create_sales_order() -> JsonModel {
    JsonModel::Object(Seq::empty()
        .push(("type"@, JsonModel::Str("object"@)))
        .push(("properties"@, JsonModel::Object(Seq::empty()
            .push(("fields"@, spec_prop("object"@, "e.g. { \"client_id\": 1, \"user_id\": 42, \"lines\": [...] }. user_id is required."@))))))
        .push(("required"@, JsonModel::Array(Seq::empty()
            .push(JsonModel::Str("fields"@))))))
}

fn build_schema_create_sales_order() -> (r: JsonValue)
    ensures
        model(r) == schema_create_sales_order(),
{
    let mut o1: Vec<JsonEntry> = Vec::new();
    push_member(&mut o1, "type", json_str("object"));
    let mut o2: Vec<JsonEntry> = Vec::new();
    push_member(&mut o2, "fields", prop("object", "e.g. { \"client_id\": 1, \"user_id\": 42, \"lines\": [...] }. user_id is required."));
    push_member(&mut o1, "properties", JsonValue::Object(o2));
    let mut a3: Vec<JsonValue> = Vec::new();
    push_item(&mut a3, json_str("fields"));
    push_member(&mut o1, "required", JsonValue::Array(a3));
    JsonValue::Object(o1)
}

/// The input schema of `get_audit_entry`.
pub open spec fn schema_get_audit_entry() -> JsonModel {
    JsonModel::Object(Seq::empty()
        .push(("type"@, JsonModel::Str("object"@)))
        .push(("properties"@, JsonModel::Object(Seq::empty()
            .push(("audit_entry_id"@, spec_prop("integer"@, "The audit entry ID"@))))))
        .push(("required"@, JsonModel::Array(Seq::empty()
            .push(JsonModel::Str("audit_entry_id"@))))))
}

fn build_schema_get_audit_entry() -> (r: JsonValue)
    ensures
        model(r) == schema_get_audit_entry(),
{
    let mut o1: Vec<JsonEntry> = Vec::new();
    push_member(&mut o1, "type", json_str("object"));
    let mut o2: Vec<JsonEntry> = Vec::new();
    push_member(&mut o2, "audit_entry_id", prop("integer", "The audit entry ID"));
    push_member(&mut o1, "properties", JsonValue::Object(o2));
    let mut a3: Vec<JsonValue> = Vec::new();
    push_item(&mut a3, json_str("audit_entry_id"));
    push_member(&mut o1, "required", JsonValue::Array(a3));
    JsonValue::Object(o1)
}

/// The input schema of `get_field`.
pub open spec fn schema_get_field() -> JsonModel {
    JsonModel::Object(Seq::empty()
        .push(("type"@, JsonModel::Str("object"@)))
        .push(("properties"@, JsonModel::Object(Seq::empty()
            .push(("field_id"@, spec_prop("integer"@, "The field ID"@))))))
        .push(("required"@, JsonModel::Array(Seq::empty()
            .push(JsonModel::Str("field_id"@))))))
}

fn build_schema_get_field() -> (r: JsonValue)
    ensures
        model(r) == schema_get_field(),
{
    let mut o1: Vec<JsonEntry> = Vec::new();
    push_member(&mut o1, "type", json_str("object"));
    let mut o2: Vec<JsonEntry> = Vec::new();
    push_member(&mut o2, "field_id", prop("integer", "The field ID"));
    push_member(&mut o1, "properties", JsonValue::Object(o2));
    let mut a3: Vec<JsonValue> = Vec::new();
    push_item(&mut a3, json_str("field_id"));
    push_member(&mut o1, "required", JsonValue::Array(a3));
    JsonValue::Object(o1)
}

/// The input schema of `get_pax8_data`.
pub open spec fn schema_get_pax8_data() -> JsonModel {
    JsonModel::Object(Seq::empty()
        .push(("type"@, JsonModel::Str("object"@)))
        .push(("properties"@, JsonModel::Object(Seq::empty()
            .push(("datatype"@, spec_prop("string"@, "Data category, e.g. subscriptions, products, companies. Required — this endpoint 400s if omitted."@)))
            .push(("search"@, spec_prop("string"@, "Free-text search (optional)"@))))))
        .push(("required"@, JsonModel::Array(Seq::empty()
            .push(JsonModel::Str("datatype"@))))))
}

fn build_schema_get_pax8_data() -> (r: JsonValue)
    ensures
        model(r) == schema_get_pax8_data(),
{
    let mut o1: Vec<JsonEntry> = Vec::new();
    push_member(&mut o1, "type", json_str("object"));
    let mut o2: Vec<JsonEntry> = Vec::new();
    push_member(&mut o2, "datatype", prop("string", "Data category, e.g. subscriptions, products, companies. Required — this endpoint 400s if omitted."));
    push_member(&mut o2, "search", prop("string", "Free-text search (optional)"));
    push_member(&mut o1, "properties", JsonValue::Object(o2));
    let mut a3: Vec<JsonValue> = Vec::new();
    push_item(&mut a3, json_str("datatype"));
    push_member(&mut o1, "required", JsonValue::Array(a3));
    JsonValue::Object(o1)
}

/// The input schema of `get_meraki_data`.
pub open spec fn schema_get_meraki_data() -> JsonModel {
    JsonModel::Object(Seq::empty()
        .push(("type"@, JsonModel::Str("object"@)))
        .push(("properties"@, JsonModel::Object(Seq::empty()))))
}

fn build_schema_get_meraki_data() -> (r: JsonValue)
    ensures
        model(r) == schema_get_meraki_data(),
{
    let mut o1: Vec<JsonEntry> = Vec::new();
    push_member(&mut o1, "type", json_str("object"));
    let mut o2: Vec<JsonEntry> = Vec::new();
    push_member(&mut o1, "properties", JsonValue::Object(o2));
    JsonValue::Object(o1)
}

/// The input schema of `import_from_xero`.
pub open spec fn schema_import_from_xero() -> JsonModel {
    JsonModel::Object(Seq::empty()
        .push(("type"@, JsonModel::Str("object"@)))
        .push(("properties"@, JsonModel::Object(Seq::empty()
            .push(("options"@, spec_prop("object"@, "Import options, if any"@)))))))
}

fn build_schema_import_from_xero() -> (r: JsonValue)
    ensures
        model(r) == schema_import_from_xero(),
{
    let mut o1: Vec<JsonEntry> = Vec::new();
    push_member(&mut o1, "type", json_str("object"));
    let mut o2: Vec<JsonEntry> = Vec::new();
    push_member(&mut o2, "options", prop("object", "Import options, if any"));
    push_member(&mut o1, "properties", JsonValue::Object(o2));
    JsonValue::Object(o1)
}

/// The input schema of `list_approval_processes`.
pub open spec fn schema_list_approval_processes() -> JsonModel {
    JsonModel::Object(Seq::empty()
        .push(("type"@, JsonModel::Str("object"@)))
        .push(("properties"@, JsonModel::Object(Seq::empty()))))
}

fn build_schema_list_approval_processes() -> (r: JsonValue)
    ensures
        model(r) == schema_list_approval_processes(),
{
    let mut o1: Vec<JsonEntry> = Vec::new();
    push_member(&mut o1, "type", json_str("object"));
    let mut o2: Vec<JsonEntry> = Vec::new();
    push_member(&mut o1, "properties", JsonValue::Object(o2));
    JsonValue::Object(o1)
}

/// The input schema of `get_approval_process`.
pub open spec fn schema_get_approval_process() -> JsonModel {
    JsonModel::Object(Seq::empty()
        .push(("type"@, JsonModel::Str("object"@)))
        .push(("properties"@, JsonModel::Object(Seq::empty()
            .push(("process_id"@, spec_prop("integer"@, "The approval process ID"@))))))
        .push(("required"@, JsonModel::Array(Seq::empty()
            .push(JsonModel::Str("process_id"@))))))
}

fn build_schema_get_approval_process() -> (r: JsonValue)
    ensures
        model(r) == schema_get_approval_process(),
{
    let mut o1: Vec<JsonEntry> = Vec::new();
    push_member(&mut o1, "type", json_str("object"));
    let mut o2: Vec<JsonEntry> = Vec::new();
    push_member(&mut o2, "process_id", prop("integer", "The approval process ID"));
    push_member(&mut o1, "properties", JsonValue::Object(o2));
    let mut a3: Vec<JsonValue> = Vec::new();
    push_item(&mut a3, json_str("process_id"));
    push_member(&mut o1, "required", JsonValue::Array(a3));
    JsonValue::Object(o1)
}

/// The input schema of `create_approval_process`.
pub open spec fn schema_create_approval_process() -> JsonModel {
    JsonModel::Object(Seq::empty()
        .push(("type"@, JsonModel::Str("object"@)))
        .push(("properties"@, JsonModel::Object(Seq::empty()
            .push(("fields"@, spec_prop("object"@, "e.g. { \"name\": \"Change Approval\", \"type\": 1 }"@))))))
        .push(("required"@, JsonModel::Array(Seq::empty()
            .push(JsonModel::Str("fields"@))))))
}

fn build_schema_create_approval_process() -> (r: JsonValue)
    ensures
        model(r) == schema_create_approval_process(),
{
    let mut o1: Vec<JsonEntry> = Vec::new();
    push_member(&mut o1, "type", json_str("object"));
    let mut o2: Vec<JsonEntry> = Vec::new();
    push_member(&mut o2, "fields", prop("object", "e.g. { \"name\": \"Change Approval\", \"type\": 1 }"));
    push_member(&mut o1, "properties", JsonValue::Object(o2));
    let mut a3: Vec<JsonValue> = Vec::new();
    push_item(&mut a3, json_str("fields"));
    push_member(&mut o1, "required", JsonValue::Array(a3));
    JsonValue::Object(o1)
}

/// The input schema of `list_approval_rules`.
pub open spec fn schema_list_approval_rules() -> JsonModel {
    JsonModel::Object(Seq::empty()
        .push(("type"@, JsonModel::Str("object"@)))
        .push(("properties"@, JsonModel::Object(Seq::empty()
            .push(("process_id"@, spec_prop("integer"@, "Filter by approval process ID (optional)"@)))))))
}

fn build_schema_list_approval_rules() -> (r: JsonValue)
    ensures
        model(r) == schema_list_approval_rules(),
{
    let mut o1: Vec<JsonEntry> = Vec::new();
    push_member(&mut o1, "type", json_str("object"));
    let mut o2: Vec<JsonEntry> = Vec::new();
    push_member(&mut o2, "process_id", prop("integer", "Filter by approval process ID (optional)"));
    push_member(&mut o1, "properties", JsonValue::Object(o2));
    JsonValue::Object(o1)
}

/// The input schema of `create_approval_rule`.
pub open spec fn schema_create_approval_rule() -> JsonModel {
    JsonModel::Object(Seq::empty()
        .push(("type"@, JsonModel::Str("object"@)))
        .push(("properties"@, JsonModel::Object(Seq::empty()
            .push(("fields"@, spec_prop("object"@, "e.g. { \"process_id\": 1, \"name\": \"High Priority Changes\" }"@))))))
        .push(("required"@, JsonModel::Array(Seq::empty()
            .push(JsonModel::Str("fields"@))))))
}

fn build_schema_create_approval_rule() -> (r: JsonValue)
    ensures
        model(r) == schema_create_approval_rule(),
{
    let mut o1: Vec<JsonEntry> = Vec::new();
    push_member(&mut o1, "type", json_str("object"));
    let mut o2: Vec<JsonEntry> = Vec::new();
    push_member(&mut o2, "fields", prop("object", "e.g. { \"process_id\": 1, \"name\": \"High Priority Changes\" }"));
    push_member(&mut o1, "properties", JsonValue::Object(o2));
    let mut a3: Vec<JsonValue> = Vec::new();
    push_item(&mut a3, json_str("fields"));
    push_member(&mut o1, "required", JsonValue::Array(a3));
    JsonValue::Object(o1)
}

/// The input schema of `list_views`.
pub open spec fn schema_list_views() -> JsonModel {
    JsonModel::Object(Seq::empty()
        .push(("type"@, JsonModel::Str("object"@)))
        .push(("properties"@, JsonModel::Object(Seq::empty()
            .push(("domain"@, spec_prop("string"@, "Entity domain, e.g. 'reqs' (tickets), 'opps' (opportunities)"@)))
            .push(("view_type"@, spec_prop("string"@, "View type, usually matches domain"@))))))
        .push(("required"@, JsonModel::Array(Seq::empty()
            .push(JsonModel::Str("domain"@))
            .push(JsonModel::Str("view_type"@))))))
}

fn build_schema_list_views() -> (r: JsonValue)
    ensures
        model(r) == schema_list_views(),
{
    let mut o1: Vec<JsonEntry> = Vec::new();
    push_member(&mut o1, "type", json_str("object"));
    let mut o2: Vec<JsonEntry> = Vec::new();
    push_member(&mut o2, "domain", prop("string", "Entity domain, e.g. 'reqs' (tickets), 'opps' (opportunities)"));
    push_member(&mut o2, "view_type", prop("string", "View type, usually matches domain"));
    push_member(&mut o1, "properties", JsonValue::Object(o2));
    let mut a3: Vec<JsonValue> = Vec::new();
    push_item(&mut a3, json_str("domain"));
    push_item(&mut a3, json_str("view_type"));
    push_member(&mut o1, "required", JsonValue::Array(a3));
    JsonValue::Object(o1)
}

/// The input schema of `get_view`.
pub open spec fn schema_get_view() -> JsonModel {
    JsonModel::Object(Seq::empty()
        .push(("type"@, JsonModel::Str("object"@)))
        .push(("properties"@, JsonModel::Object(Seq::empty()
            .push(("view_id"@, spec_prop("integer"@, "The view ID"@))))))
        .push(("required"@, JsonModel::Array(Seq::empty()
            .push(JsonModel::Str("view_id"@))))))
}

fn build_schema_get_view() -> (r: JsonValue)
    ensures
        model(r) == schema_get_view(),
{
    let mut o1: Vec<JsonEntry> = Vec::new();
    push_member(&mut o1, "type", json_str("object"));
    let mut o2: Vec<JsonEntry> = Vec::new();
    push_member(&mut o2, "view_id", prop("integer", "The view ID"));
    push_member(&mut o1, "properties", JsonValue::Object(o2));
    let mut a3: Vec<JsonValue> = Vec::new();
    push_item(&mut a3, json_str("view_id"));
    push_member(&mut o1, "required", JsonValue::Array(a3));
    JsonValue::Object(o1)
}

/// The input schema of `list_view_filters`.
pub open spec fn schema_list_view_filters() -> JsonModel {
    JsonModel::Object(Seq::empty()
        .push(("type"@, JsonModel::Str("object"@)))
        .push(("properties"@, JsonModel::Object(Seq::empty()
            .push(("view_type"@, spec_prop("string"@, "View type, e.g. 'reqs' (tickets), 'opps' (opportunities)"@)))
            .push(("ticketarea_id"@, spec_prop("integer"@, "Filter by ticket area ID (optional)"@))))))
        .push(("required"@, JsonModel::Array(Seq::empty()
            .push(JsonModel::Str("view_type"@))))))
}

fn build_schema_list_view_filters() -> (r: JsonValue)
    ensures
        model(r) == schema_list_view_filters(),
{
    let mut o1: Vec<JsonEntry> = Vec::new();
    push_member(&mut o1, "type", json_str("object"));
    let mut o2: Vec<JsonEntry> = Vec::new();
    push_member(&mut o2, "view_type", prop("string", "View type, e.g. 'reqs' (tickets), 'opps' (opportunities)"));
    push_member(&mut o2, "ticketarea_id", prop("integer", "Filter by ticket area ID (optional)"));
    push_member(&mut o1, "properties", JsonValue::Object(o2));
    let mut a3: Vec<JsonValue> = Vec::new();
    push_item(&mut a3, json_str("view_type"));
    push_member(&mut o1, "required", JsonValue::Array(a3));
    JsonValue::Object(o1)
}

/// The input schema of `list_view_columns`.
pub open spec fn schema_list_view_columns() -> JsonModel {
    JsonModel::Object(Seq::empty()
        .push(("type"@, JsonModel::Str("object"@)))
        .push(("properties"@, JsonModel::Object(Seq::empty()
            .push(("view_type"@, spec_prop("string"@, "View type, e.g. 'reqs' (tickets), 'opps' (opportunities)"@)))
            .push(("ticketarea_id"@, spec_prop("integer"@, "Filter by ticket area ID (optional)"@))))))
        .push(("required"@, JsonModel::Array(Seq::empty()
            .push(JsonModel::Str("view_type"@))))))
}

fn build_schema_list_view_columns() -> (r: JsonValue)
    ensures
        model(r) == schema_list_view_columns(),
{
    let mut o1: Vec<JsonEntry> = Vec::new();
    push_member(&mut o1, "type", json_str("object"));
    let mut o2: Vec<JsonEntry> = Vec::new();
    push_member(&mut o2, "view_type", prop("string", "View type, e.g. 'reqs' (tickets), 'opps' (opportunities)"));
    push_member(&mut o2, "ticketarea_id", prop("integer", "Filter by ticket area ID (optional)"));
    push_member(&mut o1, "properties", JsonValue::Object(o2));
    let mut a3: Vec<JsonValue> = Vec::new();
    push_item(&mut a3, json_str("view_type"));
    push_member(&mut o1, "required", JsonValue::Array(a3));
    JsonValue::Object(o1)
}

/// The input schema of `create_client`.
pub open spec fn schema_create_client() -> JsonModel {
    JsonModel::Object(Seq::empty()
        .push(("type"@, JsonModel::Str("object"@)))
        .push(("properties"@, JsonModel::Object(Seq::empty()
            .push(("fields"@, spec_prop("object"@, "Client fields, e.g. { \"name\": \"Acme Corp\", \"website\": \"https://acme.com\" }"@))))))
        .push(("required"@, JsonModel::Array(Seq::empty()
            .push(JsonModel::Str("fields"@))))))
}

fn build_schema_create_client() -> (r: JsonValue)
    ensures
        model(r) == schema_create_client(),
{
    let mut o1: Vec<JsonEntry> = Vec::new();
    push_member(&mut o1, "type", json_str("object"));
    let mut o2: Vec<JsonEntry> = Vec::new();
    push_member(&mut o2, "fields", prop("object", "Client fields, e.g. { \"name\": \"Acme Corp\", \"website\": \"https://acme.com\" }"));
    push_member(&mut o1, "properties", JsonValue::Object(o2));
    let mut a3: Vec<JsonValue> = Vec::new();
    push_item(&mut a3, json_str("fields"));
    push_member(&mut o1, "required", JsonValue::Array(a3));
    JsonValue::Object(o1)
}

/// The input schema of `list_invoice_payments`.
pub open spec fn schema_list_invoice_payments() -> JsonModel {
    JsonModel::Object(Seq::empty()
        .push(("type"@, JsonModel::Str("object"@)))
        .push(("properties"@, JsonModel::Object(Seq::empty()
            .push(("invoice_id"@, spec_prop("integer"@, "Filter by invoice ID (optional)"@)))
            .push(("count"@, spec_prop_default("integer"@, "Number of results (default 50)"@, JsonModel::Int(50))))))))
}

fn build_schema_list_invoice_payments() -> (r: JsonValue)
    ensures
        model(r) == schema_list_invoice_payments(),
{
    let mut o1: Vec<JsonEntry> = Vec::new();
    push_member(&mut o1, "type", json_str("object"));
    let mut o2: Vec<JsonEntry> = Vec::new();
    push_member(&mut o2, "invoice_id", prop("integer", "Filter by invoice ID (optional)"));
    push_member(&mut o2, "count", prop_default("integer", "Number of results (default 50)", JsonValue::Int(50)));
    push_member(&mut o1, "properties", JsonValue::Object(o2));
    JsonValue::Object(o1)
}

/// The input schema of `list_workflows`.
pub open spec fn schema_list_workflows() -> JsonModel {
    JsonModel::Object(Seq::empty()
        .push(("type"@, JsonModel::Str("object"@)))
        .push(("properties"@, JsonModel::Object(Seq::empty()
            .push(("page"@, spec_prop_default("integer"@, "Page number (default 1)"@, JsonModel::Int(1))))
            .push(("page_size"@, spec_prop_default("integer"@, "Results per page (1-100, default 50)"@, JsonModel::Int(50))))))))
}

fn build_schema_list_workflows() -> (r: JsonValue)
    ensures
        model(r) == schema_list_workflows(),
{
    let mut o1: Vec<JsonEntry> = Vec::new();
    push_member(&mut o1, "type", json_str("object"));
    let mut o2: Vec<JsonEntry> = Vec::new();
    push_member(&mut o2, "page", prop_default("integer", "Page number (default 1)", JsonValue::Int(1)));
    push_member(&mut o2, "page_size", prop_default("integer", "Results per page (1-100, default 50)", JsonValue::Int(50)));
    push_member(&mut o1, "properties", JsonValue::Object(o2));
    JsonValue::Object(o1)
}

/// The input schema of `get_workflow`.
pub open spec fn schema_get_workflow() -> JsonModel {
    JsonModel::Object(Seq::empty()
        .push(("type"@, JsonModel::Str("object"@)))
        .push(("properties"@, JsonModel::Object(Seq::empty()
            .push(("workflow_id"@, spec_prop("integer"@, "The workflow ID"@))))))
        .push(("required"@, JsonModel::Array(Seq::empty()
            .push(JsonModel::Str("workflow_id"@))))))
}

fn build_schema_get_workflow() -> (r: JsonValue)
    ensures
        model(r) == schema_get_workflow(),
{
    let mut o1: Vec<JsonEntry> = Vec::new();
    push_member(&mut o1, "type", json_str("object"));
    let mut o2: Vec<JsonEntry> = Vec::new();
    push_member(&mut o2, "workflow_id", prop("integer", "The workflow ID"));
    push_member(&mut o1, "properties", JsonValue::Object(o2));
    let mut a3: Vec<JsonValue> = Vec::new();
    push_item(&mut a3, json_str("workflow_id"));
    push_member(&mut o1, "required", JsonValue::Array(a3));
    JsonValue::Object(o1)
}

/// The input schema of `create_workflow`.
pub open spec fn schema_create_workflow() -> JsonModel {
    JsonModel::Object(Seq::empty()
        .push(("type"@, JsonModel::Str("object"@)))
        .push(("properties"@, JsonModel::Object(Seq::empty()
            .push(("fields"@, spec_prop("object"@, "Workflow fields, e.g. { \"name\": \"New Employee Onboarding\" }"@))))))
        .push(("required"@, JsonModel::Array(Seq::empty()
            .push(JsonModel::Str("fields"@))))))
}

fn build_schema_create_workflow() -> (r: JsonValue)
    ensures
        model(r) == schema_create_workflow(),
{
    let mut o1: Vec<JsonEntry> = Vec::new();
    push_member(&mut o1, "type", json_str("object"));
    let mut o2: Vec<JsonEntry> = Vec::new();
    push_member(&mut o2, "fields", prop("object", "Workflow fields, e.g. { \"name\": \"New Employee Onboarding\" }"));
    push_member(&mut o1, "properties", JsonValue::Object(o2));
    let mut a3: Vec<JsonValue> = Vec::new();
    push_item(&mut a3, json_str("fields"));
    push_member(&mut o1, "required", JsonValue::Array(a3));
    JsonValue::Object(o1)
}

/// The input schema of `update_workflow`.
pub open spec fn schema_update_workflow() -> JsonModel {
    JsonModel::Object(Seq::empty()
        .push(("type"@, JsonModel::Str("object"@)))
        .push(("properties"@, JsonModel::Object(Seq::empty()
            .push(("workflow_id"@, spec_prop("integer"@, "The workflow ID"@)))
            .push(("fields"@, spec_prop("object"@, "Fields to update"@))))))
        .push(("required"@, JsonModel::Array(Seq::empty()
            .push(JsonModel::Str("workflow_id"@))
            .push(JsonModel::Str("fields"@))))))
}

fn build_schema_update_workflow() -> (r: JsonValue)
    ensures
        model(r) == schema_update_workflow(),
{
    let mut o1: Vec<JsonEntry> = Vec::new();
    push_member(&mut o1, "type", json_str("object"));
    let mut o2: Vec<JsonEntry> = Vec::new();
    push_member(&mut o2, "workflow_id", prop("integer", "The workflow ID"));
    push_member(&mut o2, "fields", prop("object", "Fields to update"));
    push_member(&mut o1, "properties", JsonValue::Object(o2));
    let mut a3: Vec<JsonValue> = Vec::new();
    push_item(&mut a3, json_str("workflow_id"));
    push_item(&mut a3, json_str("fields"));
    push_member(&mut o1, "required", JsonValue::Array(a3));
    JsonValue::Object(o1)
}

/// The input schema of `delete_workflow`.
pub open spec fn schema_delete_workflow() -> JsonModel {
    JsonModel::Object(Seq::empty()
        .push(("type"@, JsonModel::Str("object"@)))
        .push(("properties"@, JsonModel::Object(Seq::empty()
            .push(("workflow_id"@, spec_prop("integer"@, "The workflow ID"@))))))
        .push(("required"@, JsonModel::Array(Seq::empty()
            .push(JsonModel::Str("workflow_id"@))))))
}

fn build_schema_delete_workflow() -> (r: JsonValue)
    ensures
        model(r) == schema_delete_workflow(),
{
    let mut o1: Vec<JsonEntry> = Vec::new();
    push_member(&mut o1, "type", json_str("object"));
    let mut o2: Vec<JsonEntry> = Vec::new();
    push_member(&mut o2, "workflow_id", prop("integer", "The workflow ID"));
    push_member(&mut o1, "properties", JsonValue::Object(o2));
    let mut a3: Vec<JsonValue> = Vec::new();
    push_item(&mut a3, json_str("workflow_id"));
    push_member(&mut o1, "required", JsonValue::Array(a3));
    JsonValue::Object(o1)
}

/// The input schema of `list_notifications`.
pub open spec fn schema_list_notifications() -> JsonModel {
    JsonModel::Object(Seq::empty()
        .push(("type"@, JsonModel::Str("object"@)))
        .push(("properties"@, JsonModel::Object(Seq::empty()
            .push(("agent_id"@, spec_prop("integer"@, "Filter by agent ID (optional)"@)))
            .push(("page"@, spec_prop_default("integer"@, "Page number (default 1)"@, JsonModel::Int(1))))
            .push(("page_size"@, spec_prop_default("integer"@, "Results per page (1-100, default 50)"@, JsonModel::Int(50))))))))
}

fn build_schema_list_notifications() -> (r: JsonValue)
    ensures
        model(r) == schema_list_notifications(),
{
    let mut o1: Vec<JsonEntry> = Vec::new();
    push_member(&mut o1, "type", json_str("object"));
    let mut o2: Vec<JsonEntry> = Vec::new();
    push_member(&mut o2, "agent_id", prop("integer", "Filter by agent ID (optional)"));
    push_member(&mut o2, "page", prop_default("integer", "Page number (default 1)", JsonValue::Int(1)));
    push_member(&mut o2, "page_size", prop_default("integer", "Results per page (1-100, default 50)", JsonValue::Int(50)));
    push_member(&mut o1, "properties", JsonValue::Object(o2));
    JsonValue::Object(o1)
}

/// The input schema of `get_notification`.
pub open spec fn schema_get_notification() -> JsonModel {
    JsonModel::Object(Seq::empty()
        .push(("type"@, JsonModel::Str("object"@)))
        .push(("properties"@, JsonModel::Object(Seq::empty()
            .push(("notification_id"@, spec_prop("integer"@, "The notification ID"@))))))
        .push(("required"@, JsonModel::Array(Seq::empty()
            .push(JsonModel::Str("notification_id"@))))))
}

fn build_schema_get_notification() -> (r: JsonValue)
    ensures
        model(r) == schema_get_notification(),
{
    let mut o1: Vec<JsonEntry> = Vec::new();
    push_member(&mut o1, "type", json_str("object"));
    let mut o2: Vec<JsonEntry> = Vec::new();
    push_member(&mut o2, "notification_id", prop("integer", "The notification ID"));
    push_member(&mut o1, "properties", JsonValue::Object(o2));
    let mut a3: Vec<JsonValue> = Vec::new();
    push_item(&mut a3, json_str("notification_id"));
    push_member(&mut o1, "required", JsonValue::Array(a3));
    JsonValue::Object(o1)
}

/// The input schema of `create_notification`.
pub open spec fn schema_create_notification() -> JsonModel {
    JsonModel::Object(Seq::empty()
        .push(("type"@, JsonModel::Str("object"@)))
        .push(("properties"@, JsonModel::Object(Seq::empty()
            .push(("fields"@, spec_prop("object"@, "Notification fields, e.g. { \"name\": \"VIP escalation\", \"eventno\": 1, \"agent_id\": 12 }"@))))))
        .push(("required"@, JsonModel::Array(Seq::empty()
            .push(JsonModel::Str("fields"@))))))
}

fn build_schema_create_notification() -> (r: JsonValue)
    ensures
        model(r) == schema_create_notification(),
{
    let mut o1: Vec<JsonEntry> = Vec::new();
    push_member(&mut o1, "type", json_str("object"));
    let mut o2: Vec<JsonEntry> = Vec::new();
    push_member(&mut o2, "fields", prop("object", "Notification fields, e.g. { \"name\": \"VIP escalation\", \"eventno\": 1, \"agent_id\": 12 }"));
    push_member(&mut o1, "properties", JsonValue::Object(o2));
    let mut a3: Vec<JsonValue> = Vec::new();
    push_item(&mut a3, json_str("fields"));
    push_member(&mut o1, "required", JsonValue::Array(a3));
    JsonValue::Object(o1)
}

/// The input schema of `send_notification_message`.
pub open spec fn schema_send_notification_message() -> JsonModel {
    JsonModel::Object(Seq::empty()
        .push(("type"@, JsonModel::Str("object"@)))
        .push(("properties"@, JsonModel::Object(Seq::empty()
            .push(("fields"@, spec_prop("object"@, "e.g. { \"message\": \"Please review ticket #5678\", \"agent_id\": 12 }"@))))))
        .push(("required"@, JsonModel::Array(Seq::empty()
            .push(JsonModel::Str("fields"@))))))
}

fn build_schema_send_notification_message() -> (r: JsonValue)
    ensures
        model(r) == schema_send_notification_message(),
{
    let mut o1: Vec<JsonEntry> = Vec::new();
    push_member(&mut o1, "type", json_str("object"));
    let mut o2: Vec<JsonEntry> = Vec::new();
    push_member(&mut o2, "fields", prop("object", "e.g. { \"message\": \"Please review ticket #5678\", \"agent_id\": 12 }"));
    push_member(&mut o1, "properties", JsonValue::Object(o2));
    let mut a3: Vec<JsonValue> = Vec::new();
    push_item(&mut a3, json_str("fields"));
    push_member(&mut o1, "required", JsonValue::Array(a3));
    JsonValue::Object(o1)
}

/// The input schema of `list_services`.
pub open spec fn schema_list_services() -> JsonModel {
    JsonModel::Object(Seq::empty()
        .push(("type"@, JsonModel::Str("object"@)))
        .push(("properties"@, JsonModel::Object(Seq::empty()
            .push(("search"@, spec_prop("string"@, "Free-text search (optional)"@)))
            .push(("category_id"@, spec_prop("integer"@, "Filter by service category ID (optional)"@)))
            .push(("page"@, spec_prop_default("integer"@, "Page number (default 1)"@, JsonModel::Int(1))))
            .push(("page_size"@, spec_prop_default("integer"@, "Results per page (1-100, default 50)"@, JsonModel::Int(50))))))))
}

fn build_schema_list_services() -> (r: JsonValue)
    ensures
        model(r) == schema_list_services(),
{
    let mut o1: Vec<JsonEntry> = Vec::new();
    push_member(&mut o1, "type", json_str("object"));
    let mut o2: Vec<JsonEntry> = Vec::new();
    push_member(&mut o2, "search", prop("string", "Free-text search (optional)"));
    push_member(&mut o2, "category_id", prop("integer", "Filter by service category ID (optional)"));
    push_member(&mut o2, "page", prop_default("integer", "Page number (default 1)", JsonValue::Int(1)));
    push_member(&mut o2, "page_size", prop_default("integer", "Results per page (1-100, default 50)", JsonValue::Int(50)));
    push_member(&mut o1, "properties", JsonValue::Object(o2));
    JsonValue::Object(o1)
}

/// The input schema of `get_service`.
pub open spec fn schema_get_service() -> JsonModel {
    JsonModel::Object(Seq::empty()
        .push(("type"@, JsonModel::Str("object"@)))
        .push(("properties"@, JsonModel::Object(Seq::empty()
            .push(("service_id"@, spec_prop("integer"@, "The service ID"@))))))
        .push(("required"@, JsonModel::Array(Seq::empty()
            .push(JsonModel::Str("service_id"@))))))
}

fn build_schema_get_service() -> (r: JsonValue)
    ensures
        model(r) == schema_get_service(),
{
    let mut o1: Vec<JsonEntry> = Vec::new();
    push_member(&mut o1, "type", json_str("object"));
    let mut o2: Vec<JsonEntry> = Vec::new();
    push_member(&mut o2, "service_id", prop("integer", "The service ID"));
    push_member(&mut o1, "properties", JsonValue::Object(o2));
    let mut a3: Vec<JsonValue> = Vec::new();
    push_item(&mut a3, json_str("service_id"));
    push_member(&mut o1, "required", JsonValue::Array(a3));
    JsonValue::Object(o1)
}

/// The input schema of `list_service_categories`.
pub open spec fn schema_list_service_categories() -> JsonModel {
    JsonModel::Object(Seq::empty()
        .push(("type"@, JsonModel::Str("object"@)))
        .push(("properties"@, JsonModel::Object(Seq::empty()))))
}

fn build_schema_list_service_categories() -> (r: JsonValue)
    ensures
        model(r) == schema_list_service_categories(),
{
    let mut o1: Vec<JsonEntry> = Vec::new();
    push_member(&mut o1, "type", json_str("object"));
    let mut o2: Vec<JsonEntry> = Vec::new();
    push_member(&mut o1, "properties", JsonValue::Object(o2));
    JsonValue::Object(o1)
}

/// The input schema of `list_service_statuses`.
pub open spec fn schema_list_service_statuses() -> JsonModel {
    JsonModel::Object(Seq::empty()
        .push(("type"@, JsonModel::Str("object"@)))
        .push(("properties"@, JsonModel::Object(Seq::empty()
            .push(("service_id"@, spec_prop("integer"@, "Filter by service ID (optional)"@)))))))
}

fn build_schema_list_service_statuses() -> (r: JsonValue)
    ensures
        model(r) == schema_list_service_statuses(),
{
    let mut o1: Vec<JsonEntry> = Vec::new();
    push_member(&mut o1, "type", json_str("object"));
    let mut o2: Vec<JsonEntry> = Vec::new();
    push_member(&mut o2, "service_id", prop("integer", "Filter by service ID (optional)"));
    push_member(&mut o1, "properties", JsonValue::Object(o2));
    JsonValue::Object(o1)
}

/// The input schema of `create_service_status`.
pub open spec fn schema_create_service_status() -> JsonModel {
    JsonModel::Object(Seq::empty()
        .push(("type"@, JsonModel::Str("object"@)))
        .push(("properties"@, JsonModel::Object(Seq::empty()
            .push(("fields"@, spec_prop("object"@, "e.g. { \"service_id\": 1, \"status\": \"degraded\" }"@))))))
        .push(("required"@, JsonModel::Array(Seq::empty()
            .push(JsonModel::Str("fields"@))))))
}

fn build_schema_create_service_status() -> (r: JsonValue)
    ensures
        model(r) == schema_create_service_status(),
{
    let mut o1: Vec<JsonEntry> = Vec::new();
    push_member(&mut o1, "type", json_str("object"));
    let mut o2: Vec<JsonEntry> = Vec::new();
    push_member(&mut o2, "fields", prop("object", "e.g. { \"service_id\": 1, \"status\": \"degraded\" }"));
    push_member(&mut o1, "properties", JsonValue::Object(o2));
    let mut a3: Vec<JsonValue> = Vec::new();
    push_item(&mut a3, json_str("fields"));
    push_member(&mut o1, "required", JsonValue::Array(a3));
    JsonValue::Object(o1)
}

/// The input schema of `list_invoice_statuses`.
pub open spec fn schema_list_invoice_statuses() -> JsonModel {
    JsonModel::Object(Seq::empty()
        .push(("type"@, JsonModel::Str("object"@)))
        .push(("properties"@, JsonModel::Object(Seq::empty()))))
}

fn build_schema_list_invoice_statuses() -> (r: JsonValue)
    ensures
        model(r) == schema_list_invoice_statuses(),
{
    let mut o1: Vec<JsonEntry> = Vec::new();
    push_member(&mut o1, "type", json_str("object"));
    let mut o2: Vec<JsonEntry> = Vec::new();
    push_member(&mut o1, "properties", JsonValue::Object(o2));
    JsonValue::Object(o1)
}

/// The input schema of `get_invoice_status`.
pub open spec fn schema_get_invoice_status() -> JsonModel {
    JsonModel::Object(Seq::empty()
        .push(("type"@, JsonModel::Str("object"@)))
        .push(("properties"@, JsonModel::Object(Seq::empty()
            .push(("status_id"@, spec_prop("integer"@, "The invoice status ID"@))))))
        .push(("required"@, JsonModel::Array(Seq::empty()
            .push(JsonModel::Str("status_id"@))))))
}

fn build_schema_get_invoice_status() -> (r: JsonValue)
    ensures
        model(r) == schema_get_invoice_status(),
{
    let mut o1: Vec<JsonEntry> = Vec::new();
    push_member(&mut o1, "type", json_str("object"));
    let mut o2: Vec<JsonEntry> = Vec::new();
    push_member(&mut o2, "status_id", prop("integer", "The invoice status ID"));
    push_member(&mut o1, "properties", JsonValue::Object(o2));
    let mut a3: Vec<JsonValue> = Vec::new();
    push_item(&mut a3, json_str("status_id"));
    push_member(&mut o1, "required", JsonValue::Array(a3));
    JsonValue::Object(o1)
}

/// The input schema of `create_invoice_status`.
pub open spec fn schema_create_invoice_status() -> JsonModel {
    JsonModel::Object(Seq::empty()
        .push(("type"@, JsonModel::Str("object"@)))
        .push(("properties"@, JsonModel::Object(Seq::empty()
            .push(("fields"@, spec_prop("object"@, "e.g. { \"status_name\": \"Awaiting Payment\", \"type\": 1 }. Both fields are required."@))))))
        .push(("required"@, JsonModel::Array(Seq::empty()
            .push(JsonModel::Str("fields"@))))))
}

fn build_schema_create_invoice_status() -> (r: JsonValue)
    ensures
        model(r) == schema_create_invoice_status(),
{
    let mut o1: Vec<JsonEntry> = Vec::new();
    push_member(&mut o1, "type", json_str("object"));
    let mut o2: Vec<JsonEntry> = Vec::new();
    push_member(&mut o2, "fields", prop("object", "e.g. { \"status_name\": \"Awaiting Payment\", \"type\": 1 }. Both fields are required."));
    push_member(&mut o1, "properties", JsonValue::Object(o2));
    let mut a3: Vec<JsonValue> = Vec::new();
    push_item(&mut a3, json_str("fields"));
    push_member(&mut o1, "required", JsonValue::Array(a3));
    JsonValue::Object(o1)
}

/// The input schema of `delete_invoice_status`.
pub open spec fn schema_delete_invoice_status() -> JsonModel {
    JsonModel::Object(Seq::empty()
        .push(("type"@, JsonModel::Str("object"@)))
        .push(("properties"@, JsonModel::Object(Seq::empty()
            .push(("status_id"@, spec_prop("integer"@, "The invoice status ID"@))))))
        .push(("required"@, JsonModel::Array(Seq::empty()
            .push(JsonModel::Str("status_id"@))))))
}

fn build_schema_delete_invoice_status() -> (r: JsonValue)
    ensures
        model(r) == schema_delete_invoice_status(),
{
    let mut o1: Vec<JsonEntry> = Vec::new();
    push_member(&mut o1, "type", json_str("object"));
    let mut o2: Vec<JsonEntry> = Vec::new();
    push_member(&mut o2, "status_id", prop("integer", "The invoice status ID"));
    push_member(&mut o1, "properties", JsonValue::Object(o2));
    let mut a3: Vec<JsonValue> = Vec::new();
    push_item(&mut a3, json_str("status_id"));
    push_member(&mut o1, "required", JsonValue::Array(a3));
    JsonValue::Object(o1)
}

/// The input schema of `update_invoice_lines`.
pub open spec fn schema_update_invoice_lines() -> JsonModel {
    JsonModel::Object(Seq::empty()
        .push(("type"@, JsonModel::Str("object"@)))
        .push(("properties"@, JsonModel::Object(Seq::empty()
            .push(("lines"@, JsonModel::Object(Seq::empty()
                .push(("type"@, JsonModel::Str("array"@)))
                .push(("description"@, JsonModel::Str("Line objects, each including its id and the fields to change"@)))
                .push(("items"@, JsonModel::Object(Seq::empty()
                    .push(("type"@, JsonModel::Str("object"@))))))))))))
        .push(("required"@, JsonModel::Array(Seq::empty()
            .push(JsonModel::Str("lines"@))))))
}

fn build_schema_update_invoice_lines() -> (r: JsonValue)
    ensures
        model(r) == schema_update_invoice_lines(),
{
    let mut o1: Vec<JsonEntry> = Vec::new();
    push_member(&mut o1, "type", json_str("object"));
    let mut o2: Vec<JsonEntry> = Vec::new();
    let mut o3: Vec<JsonEntry> = Vec::new();
    push_member(&mut o3, "type", json_str("array"));
    push_member(&mut o3, "description", json_str("Line objects, each including its id and the fields to change"));
    let mut o4: Vec<JsonEntry> = Vec::new();
    push_member(&mut o4, "type", json_str("object"));
    push_member(&mut o3, "items", JsonValue::Object(o4));
    push_member(&mut o2, "lines", JsonValue::Object(o3));
    push_member(&mut o1, "properties", JsonValue::Object(o2));
    let mut a5: Vec<JsonValue> = Vec::new();
    push_item(&mut a5, json_str("lines"));
    push_member(&mut o1, "required", JsonValue::Array(a5));
    JsonValue::Object(o1)
}

/// The input schema of `update_sales_order_lines`.
pub open spec fn schema_update_sales_order_lines() -> JsonModel {
    JsonModel::Object(Seq::empty()
        .push(("type"@, JsonModel::Str("object"@)))
        .push(("properties"@, JsonModel::Object(Seq::empty()
            .push(("lines"@, JsonModel::Object(Seq::empty()
                .push(("type"@, JsonModel::Str("array"@)))
                .push(("description"@, JsonModel::Str("Line objects, each including its id and the fields to change"@)))
                .push(("items"@, JsonModel::Object(Seq::empty()
                    .push(("type"@, JsonModel::Str("object"@))))))))))))
        .push(("required"@, JsonModel::Array(Seq::empty()
            .push(JsonModel::Str("lines"@))))))
}

fn build_schema_update_sales_order_lines() -> (r: JsonValue)
    ensures
        model(r) == schema_update_sales_order_lines(),
{
    let mut o1: Vec<JsonEntry> = Vec::new();
    push_member(&mut o1, "type", json_str("object"));
    let mut o2: Vec<JsonEntry> = Vec::new();
    let mut o3: Vec<JsonEntry> = Vec::new();
    push_member(&mut o3, "type", json_str("array"));
    push_member(&mut o3, "description", json_str("Line objects, each including its id and the fields to change"));
    let mut o4: Vec<JsonEntry> = Vec::new();
    push_member(&mut o4, "type", json_str("object"));
    push_member(&mut o3, "items", JsonValue::Object(o4));
    push_member(&mut o2, "lines", JsonValue::Object(o3));
    push_member(&mut o1, "properties", JsonValue::Object(o2));
    let mut a5: Vec<JsonValue> = Vec::new();
    push_item(&mut a5, json_str("lines"));
    push_member(&mut o1, "required", JsonValue::Array(a5));
    JsonValue::Object(o1)
}

/// The input schema of `register_invoice_view`.
pub open spec fn schema_register_invoice_view() -> JsonModel {
    JsonModel::Object(Seq::empty()
        .push(("type"@, JsonModel::Str("object"@)))
        .push(("properties"@, JsonModel::Object(Seq::empty()
            .push(("invoice_id"@, spec_prop("integer"@, "The invoice ID"@))))))
        .push(("required"@, JsonModel::Array(Seq::empty()
            .push(JsonModel::Str("invoice_id"@))))))
}

fn build_schema_register_invoice_view() -> (r: JsonValue)
    ensures
        model(r) == schema_register_invoice_view(),
{
    let mut o1: Vec<JsonEntry> = Vec::new();
    push_member(&mut o1, "type", json_str("object"));
    let mut o2: Vec<JsonEntry> = Vec::new();
    push_member(&mut o2, "invoice_id", prop("integer", "The invoice ID"));
    push_member(&mut o1, "properties", JsonValue::Object(o2));
    let mut a3: Vec<JsonValue> = Vec::new();
    push_item(&mut a3, json_str("invoice_id"));
    push_member(&mut o1, "required", JsonValue::Array(a3));
    JsonValue::Object(o1)
}

/// The input schema of `register_sales_order_view`.
pub open spec fn schema_register_sales_order_view() -> JsonModel {
    JsonModel::Object(Seq::empty()
        .push(("type"@, JsonModel::Str("object"@)))
        .push(("properties"@, JsonModel::Object(Seq::empty()
            .push(("sales_order_id"@, spec_prop("integer"@, "The sales order ID"@))))))
        .push(("required"@, JsonModel::Array(Seq::empty()
            .push(JsonModel::Str("sales_order_id"@))))))
}

fn build_schema_register_sales_order_view() -> (r: JsonValue)
    ensures
        model(r) == schema_register_sales_order_view(),
{
    let mut o1: Vec<JsonEntry> = Vec::new();
    push_member(&mut o1, "type", json_str("object"));
    let mut o2: Vec<JsonEntry> = Vec::new();
    push_member(&mut o2, "sales_order_id", prop("integer", "The sales order ID"));
    push_member(&mut o1, "properties", JsonValue::Object(o2));
    let mut a3: Vec<JsonValue> = Vec::new();
    push_item(&mut a3, json_str("sales_order_id"));
    push_member(&mut o1, "required", JsonValue::Array(a3));
    JsonValue::Object(o1)
}

/// The input schema of `register_purchase_order_view`.
pub open spec fn schema_register_purchase_order_view() -> JsonModel {
    JsonModel::Object(Seq::empty()
        .push(("type"@, JsonModel::Str("object"@)))
        .push(("properties"@, JsonModel::Object(Seq::empty()
            .push(("purchase_order_id"@, spec_prop("integer"@, "The purchase order ID"@))))))
        .push(("required"@, JsonModel::Array(Seq::empty()
            .push(JsonModel::Str("purchase_order_id"@))))))
}

fn build_schema_register_purchase_order_view() -> (r: JsonValue)
    ensures
        model(r) == schema_register_purchase_order_view(),
{
    let mut o1: Vec<JsonEntry> = Vec::new();
    push_member(&mut o1, "type", json_str("object"));
    let mut o2: Vec<JsonEntry> = Vec::new();
    push_member(&mut o2, "purchase_order_id", prop("integer", "The purchase order ID"));
    push_member(&mut o1, "properties", JsonValue::Object(o2));
    let mut a3: Vec<JsonValue> = Vec::new();
    push_item(&mut a3, json_str("purchase_order_id"));
    push_member(&mut o1, "required", JsonValue::Array(a3));
    JsonValue::Object(o1)
}

/// The input schema of `register_kb_article_view`.
pub open spec fn schema_register_kb_article_view() -> JsonModel {
    JsonModel::Object(Seq::empty()
        .push(("type"@, JsonModel::Str("object"@)))
        .push(("properties"@, JsonModel::Object(Seq::empty()
            .push(("kb_article_id"@, spec_prop("integer"@, "The KB article ID"@))))))
        .push(("required"@, JsonModel::Array(Seq::empty()
            .push(JsonModel::Str("kb_article_id"@))))))
}

fn build_schema_register_kb_article_view() -> (r: JsonValue)
    ensures
        model(r) == schema_register_kb_article_view(),
{
    let mut o1: Vec<JsonEntry> = Vec::new();
    push_member(&mut o1, "type", json_str("object"));
    let mut o2: Vec<JsonEntry> = Vec::new();
    push_member(&mut o2, "kb_article_id", prop("integer", "The KB article ID"));
    push_member(&mut o1, "properties", JsonValue::Object(o2));
    let mut a3: Vec<JsonValue> = Vec::new();
    push_item(&mut a3, json_str("kb_article_id"));
    push_member(&mut o1, "required", JsonValue::Array(a3));
    JsonValue::Object(o1)
}

/// The input schema of `review_expense`.
pub open spec fn schema_review_expense() -> JsonModel {
    JsonModel::Object(Seq::empty()
        .push(("type"@, JsonModel::Str("object"@)))
        .push(("properties"@, JsonModel::Object(Seq::empty()
            .push(("expense_ids"@, JsonModel::Object(Seq::empty()
                .push(("type"@, JsonModel::Str("array"@)))
                .push(("items"@, JsonModel::Object(Seq::empty()
                    .push(("type"@, JsonModel::Str("integer"@))))))
                .push(("description"@, JsonModel::Str("Expense IDs to mark reviewed"@)))))))))
        .push(("required"@, JsonModel::Array(Seq::empty()
            .push(JsonModel::Str("expense_ids"@))))))
}

fn build_schema_review_expense() -> (r: JsonValue)
    ensures
        model(r) == schema_review_expense(),
{
    let mut o1: Vec<JsonEntry> = Vec::new();
    push_member(&mut o1, "type", json_str("object"));
    let mut o2: Vec<JsonEntry> = Vec::new();
    let mut o3: Vec<JsonEntry> = Vec::new();
    push_member(&mut o3, "type", json_str("array"));
    let mut o4: Vec<JsonEntry> = Vec::new();
    push_member(&mut o4, "type", json_str("integer"));
    push_member(&mut o3, "items", JsonValue::Object(o4));
    push_member(&mut o3, "description", json_str("Expense IDs to mark reviewed"));
    push_member(&mut o2, "expense_ids", JsonValue::Object(o3));
    push_member(&mut o1, "properties", JsonValue::Object(o2));
    let mut a5: Vec<JsonValue> = Vec::new();
    push_item(&mut a5, json_str("expense_ids"));
    push_member(&mut o1, "required", JsonValue::Array(a5));
    JsonValue::Object(o1)
}

/// The input schema of `expire_client_prepay`.
pub open spec fn schema_expire_client_prepay() -> JsonModel {
    JsonModel::Object(Seq::empty()
        .push(("type"@, JsonModel::Str("object"@)))
        .push(("properties"@, JsonModel::Object(Seq::empty()
            .push(("prepay_ids"@, JsonModel::Object(Seq::empty()
                .push(("type"@, JsonModel::Str("array"@)))
                .push(("items"@, JsonModel::Object(Seq::empty()
                    .push(("type"@, JsonModel::Str("integer"@))))))
                .push(("description"@, JsonModel::Str("Prepay record IDs to expire"@)))))))))
        .push(("required"@, JsonModel::Array(Seq::empty()
            .push(JsonModel::Str("prepay_ids"@))))))
}

fn build_schema_expire_client_prepay() -> (r: JsonValue)
    ensures
        model(r) == schema_expire_client_prepay(),
{
    let mut o1: Vec<JsonEntry> = Vec::new();
    push_member(&mut o1, "type", json_str("object"));
    let mut o2: Vec<JsonEntry> = Vec::new();
    let mut o3: Vec<JsonEntry> = Vec::new();
    push_member(&mut o3, "type", json_str("array"));
    let mut o4: Vec<JsonEntry> = Vec::new();
    push_member(&mut o4, "type", json_str("integer"));
    push_member(&mut o3, "items", JsonValue::Object(o4));
    push_member(&mut o3, "description", json_str("Prepay record IDs to expire"));
    push_member(&mut o2, "prepay_ids", JsonValue::Object(o3));
    push_member(&mut o1, "properties", JsonValue::Object(o2));
    let mut a5: Vec<JsonValue> = Vec::new();
    push_item(&mut a5, json_str("prepay_ids"));
    push_member(&mut o1, "required", JsonValue::Array(a5));
    JsonValue::Object(o1)
}

/// The input schema of `list_integration_configs`.
pub open spec fn schema_list_integration_configs() -> JsonModel {
    JsonModel::Object(Seq::empty()
        .push(("type"@, JsonModel::Str("object"@)))
        .push(("properties"@, JsonModel::Object(Seq::empty()))))
}

fn build_schema_list_integration_configs() -> (r: JsonValue)
    ensures
        model(r) == schema_list_integration_configs(),
{
    let mut o1: Vec<JsonEntry> = Vec::new();
    push_member(&mut o1, "type", json_str("object"));
    let mut o2: Vec<JsonEntry> = Vec::new();
    push_member(&mut o1, "properties", JsonValue::Object(o2));
    JsonValue::Object(o1)
}

/// The input schema of `get_integration_config`.
pub open spec fn schema_get_integration_config() -> JsonModel {
    JsonModel::Object(Seq::empty()
        .push(("type"@, JsonModel::Str("object"@)))
        .push(("properties"@, JsonModel::Object(Seq::empty()
            .push(("config_id"@, spec_prop("integer"@, "The integration config ID"@))))))
        .push(("required"@, JsonModel::Array(Seq::empty()
            .push(JsonModel::Str("config_id"@))))))
}

fn build_schema_get_integration_config() -> (r: JsonValue)
    ensures
        model(r) == schema_get_integration_config(),
{
    let mut o1: Vec<JsonEntry> = Vec::new();
    push_member(&mut o1, "type", json_str("object"));
    let mut o2: Vec<JsonEntry> = Vec::new();
    push_member(&mut o2, "config_id", prop("integer", "The integration config ID"));
    push_member(&mut o1, "properties", JsonValue::Object(o2));
    let mut a3: Vec<JsonValue> = Vec::new();
    push_item(&mut a3, json_str("config_id"));
    push_member(&mut o1, "required", JsonValue::Array(a3));
    JsonValue::Object(o1)
}

/// The input schema of `list_integration_site_mappings`.
pub open spec fn schema_list_integration_site_mappings() -> JsonModel {
    JsonModel::Object(Seq::empty()
        .push(("type"@, JsonModel::Str("object"@)))
        .push(("properties"@, JsonModel::Object(Seq::empty()
            .push(("module_id"@, spec_prop("integer"@, "Filter by integration module ID (optional)"@)))))))
}

fn build_schema_list_integration_site_mappings() -> (r: JsonValue)
    ensures
        model(r) == schema_list_integration_site_mappings(),
{
    let mut o1: Vec<JsonEntry> = Vec::new();
    push_member(&mut o1, "type", json_str("object"));
    let mut o2: Vec<JsonEntry> = Vec::new();
    push_member(&mut o2, "module_id", prop("integer", "Filter by integration module ID (optional)"));
    push_member(&mut o1, "properties", JsonValue::Object(o2));
    JsonValue::Object(o1)
}

/// The input schema of `list_integration_errors`.
pub open spec fn schema_list_integration_errors() -> JsonModel {
    JsonModel::Object(Seq::empty()
        .push(("type"@, JsonModel::Str("object"@)))
        .push(("properties"@, JsonModel::Object(Seq::empty()
            .push(("module_id"@, spec_prop("integer"@, "Filter by integration module ID (optional)"@)))
            .push(("page"@, spec_prop_default("integer"@, "Page number (default 1)"@, JsonModel::Int(1))))
            .push(("page_size"@, spec_prop_default("integer"@, "Results per page (1-200, default 50)"@, JsonModel::Int(50))))))))
}

fn build_schema_list_integration_errors() -> (r: JsonValue)
    ensures
        model(r) == schema_list_integration_errors(),
{
    let mut o1: Vec<JsonEntry> = Vec::new();
    push_member(&mut o1, "type", json_str("object"));
    let mut o2: Vec<JsonEntry> = Vec::new();
    push_member(&mut o2, "module_id", prop("integer", "Filter by integration module ID (optional)"));
    push_member(&mut o2, "page", prop_default("integer", "Page number (default 1)", JsonValue::Int(1)));
    push_member(&mut o2, "page_size", prop_default("integer", "Results per page (1-200, default 50)", JsonValue::Int(50)));
    push_member(&mut o1, "properties", JsonValue::Object(o2));
    JsonValue::Object(o1)
}

/// The input schema of `get_integration_error`.
pub open spec fn schema_get_integration_error() -> JsonModel {
    JsonModel::Object(Seq::empty()
        .push(("type"@, JsonModel::Str("object"@)))
        .push(("properties"@, JsonModel::Object(Seq::empty()
            .push(("error_id"@, spec_prop("integer"@, "The integration error ID"@))))))
        .push(("required"@, JsonModel::Array(Seq::empty()
            .push(JsonModel::Str("error_id"@))))))
}

fn build_schema_get_integration_error() -> (r: JsonValue)
    ensures
        model(r) == schema_get_integration_error(),
{
    let mut o1: Vec<JsonEntry> = Vec::new();
    push_member(&mut o1, "type", json_str("object"));
    let mut o2: Vec<JsonEntry> = Vec::new();
    push_member(&mut o2, "error_id", prop("integer", "The integration error ID"));
    push_member(&mut o1, "properties", JsonValue::Object(o2));
    let mut a3: Vec<JsonValue> = Vec::new();
    push_item(&mut a3, json_str("error_id"));
    push_member(&mut o1, "required", JsonValue::Array(a3));
    JsonValue::Object(o1)
}

/// The input schema of `list_integration_requests`.
pub open spec fn schema_list_integration_requests() -> JsonModel {
    JsonModel::Object(Seq::empty()
        .push(("type"@, JsonModel::Str("object"@)))
        .push(("properties"@, JsonModel::Object(Seq::empty()
            .push(("module_id"@, spec_prop("integer"@, "Filter by integration module ID (optional)"@)))
            .push(("page"@, spec_prop_default("integer"@, "Page number (default 1)"@, JsonModel::Int(1))))
            .push(("page_size"@, spec_prop_default("integer"@, "Results per page (1-200, default 50)"@, JsonModel::Int(50))))))))
}

fn build_schema_list_integration_requests() -> (r: JsonValue)
    ensures
        model(r) == schema_list_integration_requests(),
{
    let mut o1: Vec<JsonEntry> = Vec::new();
    push_member(&mut o1, "type", json_str("object"));
    let mut o2: Vec<JsonEntry> = Vec::new();
    push_member(&mut o2, "module_id", prop("integer", "Filter by integration module ID (optional)"));
    push_member(&mut o2, "page", prop_default("integer", "Page number (default 1)", JsonValue::Int(1)));
    push_member(&mut o2, "page_size", prop_default("integer", "Results per page (1-200, default 50)", JsonValue::Int(50)));
    push_member(&mut o1, "properties", JsonValue::Object(o2));
    JsonValue::Object(o1)
}

/// The input schema of `get_integration_request`.
pub open spec fn schema_get_integration_request() -> JsonModel {
    JsonModel::Object(Seq::empty()
        .push(("type"@, JsonModel::Str("object"@)))
        .push(("properties"@, JsonModel::Object(Seq::empty()
            .push(("request_id"@, spec_prop("integer"@, "The integration request ID"@))))))
        .push(("required"@, JsonModel::Array(Seq::empty()
            .push(JsonModel::Str("request_id"@))))))
}

fn build_schema_get_integration_request() -> (r: JsonValue)
    ensures
        model(r) == schema_get_integration_request(),
{
    let mut o1: Vec<JsonEntry> = Vec::new();
    push_member(&mut o1, "type", json_str("object"));
    let mut o2: Vec<JsonEntry> = Vec::new();
    push_member(&mut o2, "request_id", prop("integer", "The integration request ID"));
    push_member(&mut o1, "properties", JsonValue::Object(o2));
    let mut a3: Vec<JsonValue> = Vec::new();
    push_item(&mut a3, json_str("request_id"));
    push_member(&mut o1, "required", JsonValue::Array(a3));
    JsonValue::Object(o1)
}

/// The input schema of `list_integration_field_mappings`.
pub open spec fn schema_list_integration_field_mappings() -> JsonModel {
    JsonModel::Object(Seq::empty()
        .push(("type"@, JsonModel::Str("object"@)))
        .push(("properties"@, JsonModel::Object(Seq::empty()
            .push(("module_id"@, spec_prop("integer"@, "Filter by integration module ID (optional)"@)))))))
}

fn build_schema_list_integration_field_mappings() -> (r: JsonValue)
    ensures
        model(r) == schema_list_integration_field_mappings(),
{
    let mut o1: Vec<JsonEntry> = Vec::new();
    push_member(&mut o1, "type", json_str("object"));
    let mut o2: Vec<JsonEntry> = Vec::new();
    push_member(&mut o2, "module_id", prop("integer", "Filter by integration module ID (optional)"));
    push_member(&mut o1, "properties", JsonValue::Object(o2));
    JsonValue::Object(o1)
}

/// The input schema of `get_microsoft_csp_data`.
pub open spec fn schema_get_microsoft_csp_data() -> JsonModel {
    JsonModel::Object(Seq::empty()
        .push(("type"@, JsonModel::Str("object"@)))
        .push(("properties"@, JsonModel::Object(Seq::empty()
            .push(("datatype"@, spec_prop("string"@, "Data category, e.g. subscriptions, licences, customers. Required — this endpoint 400s if omitted."@)))
            .push(("search"@, spec_prop("string"@, "Free-text search (optional)"@))))))
        .push(("required"@, JsonModel::Array(Seq::empty()
            .push(JsonModel::Str("datatype"@))))))
}

fn build_schema_get_microsoft_csp_data() -> (r: JsonValue)
    ensures
        model(r) == schema_get_microsoft_csp_data(),
{
    let mut o1: Vec<JsonEntry> = Vec::new();
    push_member(&mut o1, "type", json_str("object"));
    let mut o2: Vec<JsonEntry> = Vec::new();
    push_member(&mut o2, "datatype", prop("string", "Data category, e.g. subscriptions, licences, customers. Required — this endpoint 400s if omitted."));
    push_member(&mut o2, "search", prop("string", "Free-text search (optional)"));
    push_member(&mut o1, "properties", JsonValue::Object(o2));
    let mut a3: Vec<JsonValue> = Vec::new();
    push_item(&mut a3, json_str("datatype"));
    push_member(&mut o1, "required", JsonValue::Array(a3));
    JsonValue::Object(o1)
}

/// The input schema of `get_intune_data`.
pub open spec fn schema_get_intune_data() -> JsonModel {
    JsonModel::Object(Seq::empty()
        .push(("type"@, JsonModel::Str("object"@)))
        .push(("properties"@, JsonModel::Object(Seq::empty()
            .push(("datatype"@, spec_prop("string"@, "Data category, e.g. devices, compliancepolicies, apps. Required — this endpoint 400s if omitted."@)))
            .push(("search"@, spec_prop("string"@, "Free-text search (optional)"@))))))
        .push(("required"@, JsonModel::Array(Seq::empty()
            .push(JsonModel::Str("datatype"@))))))
}

fn build_schema_get_intune_data() -> (r: JsonValue)
    ensures
        model(r) == schema_get_intune_data(),
{
    let mut o1: Vec<JsonEntry> = Vec::new();
    push_member(&mut o1, "type", json_str("object"));
    let mut o2: Vec<JsonEntry> = Vec::new();
    push_member(&mut o2, "datatype", prop("string", "Data category, e.g. devices, compliancepolicies, apps. Required — this endpoint 400s if omitted."));
    push_member(&mut o2, "search", prop("string", "Free-text search (optional)"));
    push_member(&mut o1, "properties", JsonValue::Object(o2));
    let mut a3: Vec<JsonValue> = Vec::new();
    push_item(&mut a3, json_str("datatype"));
    push_member(&mut o1, "required", JsonValue::Array(a3));
    JsonValue::Object(o1)
}

/// The input schema of `get_azure_ad_data`.
pub open spec fn schema_get_azure_ad_data() -> JsonModel {
    JsonModel::Object(Seq::empty()
        .push(("type"@, JsonModel::Str("object"@)))
        .push(("properties"@, JsonModel::Object(Seq::empty()
            .push(("datatype"@, spec_prop("string"@, "Data category, e.g. users, groups, licenses. Required — this endpoint 400s if omitted."@)))
            .push(("search"@, spec_prop("string"@, "Free-text search (optional)"@))))))
        .push(("required"@, JsonModel::Array(Seq::empty()
            .push(JsonModel::Str("datatype"@))))))
}

fn build_schema_get_azure_ad_data() -> (r: JsonValue)
    ensures
        model(r) == schema_get_azure_ad_data(),
{
    let mut o1: Vec<JsonEntry> = Vec::new();
    push_member(&mut o1, "type", json_str("object"));
    let mut o2: Vec<JsonEntry> = Vec::new();
    push_member(&mut o2, "datatype", prop("string", "Data category, e.g. users, groups, licenses. Required — this endpoint 400s if omitted."));
    push_member(&mut o2, "search", prop("string", "Free-text search (optional)"));
    push_member(&mut o1, "properties", JsonValue::Object(o2));
    let mut a3: Vec<JsonValue> = Vec::new();
    push_item(&mut a3, json_str("datatype"));
    push_member(&mut o1, "required", JsonValue::Array(a3));
    JsonValue::Object(o1)
}

/// The input schema of `get_ninja_rmm_data`.
pub open spec fn schema_get_ninja_rmm_data() -> JsonModel {
    JsonModel::Object(Seq::empty()
        .push(("type"@, JsonModel::Str("object"@)))
        .push(("properties"@, JsonModel::Object(Seq::empty()
            .push(("datatype"@, spec_prop("string"@, "Data category, e.g. devices, organizations. Required — this endpoint 400s if omitted."@)))
            .push(("search"@, spec_prop("string"@, "Free-text search (optional)"@))))))
        .push(("required"@, JsonModel::Array(Seq::empty()
            .push(JsonModel::Str("datatype"@))))))
}

fn build_schema_get_ninja_rmm_data() -> (r: JsonValue)
    ensures
        model(r) == schema_get_ninja_rmm_data(),
{
    let mut o1: Vec<JsonEntry> = Vec::new();
    push_member(&mut o1, "type", json_str("object"));
    let mut o2: Vec<JsonEntry> = Vec::new();
    push_member(&mut o2, "datatype", prop("string", "Data category, e.g. devices, organizations. Required — this endpoint 400s if omitted."));
    push_member(&mut o2, "search", prop("string", "Free-text search (optional)"));
    push_member(&mut o1, "properties", JsonValue::Object(o2));
    let mut a3: Vec<JsonValue> = Vec::new();
    push_item(&mut a3, json_str("datatype"));
    push_member(&mut o1, "required", JsonValue::Array(a3));
    JsonValue::Object(o1)
}

/// The input schema of `get_xero_data`.
pub open spec fn schema_get_xero_data() -> JsonModel {
    JsonModel::Object(Seq::empty()
        .push(("type"@, JsonModel::Str("object"@)))
        .push(("properties"@, JsonModel::Object(Seq::empty()
            .push(("datatype"@, spec_prop("string"@, "Data category, e.g. invoices, contacts, payments. Required — this endpoint 400s if omitted."@)))
            .push(("search"@, spec_prop("string"@, "Free-text search (optional)"@))))))
        .push(("required"@, JsonModel::Array(Seq::empty()
            .push(JsonModel::Str("datatype"@))))))
}

fn build_schema_get_xero_data() -> (r: JsonValue)
    ensures
        model(r) == schema_get_xero_data(),
{
    let mut o1: Vec<JsonEntry> = Vec::new();
    push_member(&mut o1, "type", json_str("object"));
    let mut o2: Vec<JsonEntry> = Vec::new();
    push_member(&mut o2, "datatype", prop("string", "Data category, e.g. invoices, contacts, payments. Required — this endpoint 400s if omitted."));
    push_member(&mut o2, "search", prop("string", "Free-text search (optional)"));
    push_member(&mut o1, "properties", JsonValue::Object(o2));
    let mut a3: Vec<JsonValue> = Vec::new();
    push_item(&mut a3, json_str("datatype"));
    push_member(&mut o1, "required", JsonValue::Array(a3));
    JsonValue::Object(o1)
}

/// The input schema of `list_xero_details`.
pub open spec fn schema_list_xero_details() -> JsonModel {
    JsonModel::Object(Seq::empty()
        .push(("type"@, JsonModel::Str("object"@)))
        .push(("properties"@, JsonModel::Object(Seq::empty()
            .push(("page"@, spec_prop_default("integer"@, "Page number (default 1)"@, JsonModel::Int(1))))
            .push(("page_size"@, spec_prop_default("integer"@, "Results per page (1-100, default 50)"@, JsonModel::Int(50))))))))
}

fn build_schema_list_xero_details() -> (r: JsonValue)
    ensures
        model(r) == schema_list_xero_details(),
{
    let mut o1: Vec<JsonEntry> = Vec::new();
    push_member(&mut o1, "type", json_str("object"));
    let mut o2: Vec<JsonEntry> = Vec::new();
    push_member(&mut o2, "page", prop_default("integer", "Page number (default 1)", JsonValue::Int(1)));
    push_member(&mut o2, "page_size", prop_default("integer", "Results per page (1-100, default 50)", JsonValue::Int(50)));
    push_member(&mut o1, "properties", JsonValue::Object(o2));
    JsonValue::Object(o1)
}

/// The input schema of `get_xero_detail`.
pub open spec fn schema_get_xero_detail() -> JsonModel {
    JsonModel::Object(Seq::empty()
        .push(("type"@, JsonModel::Str("object"@)))
        .push(("properties"@, JsonModel::Object(Seq::empty()
            .push(("detail_id"@, spec_prop("integer"@, "The Xero detail record ID"@))))))
        .push(("required"@, JsonModel::Array(Seq::empty()
            .push(JsonModel::Str("detail_id"@))))))
}

fn build_schema_get_xero_detail() -> (r: JsonValue)
    ensures
        model(r) == schema_get_xero_detail(),
{
    let mut o1: Vec<JsonEntry> = Vec::new();
    push_member(&mut o1, "type", json_str("object"));
    let mut o2: Vec<JsonEntry> = Vec::new();
    push_member(&mut o2, "detail_id", prop("integer", "The Xero detail record ID"));
    push_member(&mut o1, "properties", JsonValue::Object(o2));
    let mut a3: Vec<JsonValue> = Vec::new();
    push_item(&mut a3, json_str("detail_id"));
    push_member(&mut o1, "required", JsonValue::Array(a3));
    JsonValue::Object(o1)
}

/// The input schema of `send_invoice_to_xero`.
pub open spec fn schema_send_invoice_to_xero() -> JsonModel {
    JsonModel::Object(Seq::empty()
        .push(("type"@, JsonModel::Str("object"@)))
        .push(("properties"@, JsonModel::Object(Seq::empty()
            .push(("invoice_id"@, spec_prop("integer"@, "The invoice ID to send"@))))))
        .push(("required"@, JsonModel::Array(Seq::empty()
            .push(JsonModel::Str("invoice_id"@))))))
}

fn build_schema_send_invoice_to_xero() -> (r: JsonValue)
    ensures
        model(r) == schema_send_invoice_to_xero(),
{
    let mut o1: Vec<JsonEntry> = Vec::new();
    push_member(&mut o1, "type", json_str("object"));
    let mut o2: Vec<JsonEntry> = Vec::new();
    push_member(&mut o2, "invoice_id", prop("integer", "The invoice ID to send"));
    push_member(&mut o1, "properties", JsonValue::Object(o2));
    let mut a3: Vec<JsonValue> = Vec::new();
    push_item(&mut a3, json_str("invoice_id"));
    push_member(&mut o1, "required", JsonValue::Array(a3));
    JsonValue::Object(o1)
}

/// The input schema of `create_asset`.
pub open spec fn schema_create_asset() -> JsonModel {
    JsonModel::Object(Seq::empty()
        .push(("type"@, JsonModel::Str("object"@)))
        .push(("properties"@, JsonModel::Object(Seq::empty()
            .push(("fields"@, spec_prop("object"@, "Asset fields, e.g. { \"inventory_number\": \"PC-001\", \"client_id\": 42, \"assettype_id\": 1 }"@))))))
        .push(("required"@, JsonModel::Array(Seq::empty()
            .push(JsonModel::Str("fields"@))))))
}

fn build_schema_create_asset() -> (r: JsonValue)
    ensures
        model(r) == schema_create_asset(),
{
    let mut o1: Vec<JsonEntry> = Vec::new();
    push_member(&mut o1, "type", json_str("object"));
    let mut o2: Vec<JsonEntry> = Vec::new();
    push_member(&mut o2, "fields", prop("object", "Asset fields, e.g. { \"inventory_number\": \"PC-001\", \"client_id\": 42, \"assettype_id\": 1 }"));
    push_member(&mut o1, "properties", JsonValue::Object(o2));
    let mut a3: Vec<JsonValue> = Vec::new();
    push_item(&mut a3, json_str("fields"));
    push_member(&mut o1, "required", JsonValue::Array(a3));
    JsonValue::Object(o1)
}

/// The input schema of `update_asset`.
pub open spec fn schema_update_asset() -> JsonModel {
    JsonModel::Object(Seq::empty()
        .push(("type"@, JsonModel::Str("object"@)))
        .push(("properties"@, JsonModel::Object(Seq::empty()
            .push(("asset_id"@, spec_prop("integer"@, "The asset ID"@)))
            .push(("fields"@, spec_prop("object"@, "Fields to update"@))))))
        .push(("required"@, JsonModel::Array(Seq::empty()
            .push(JsonModel::Str("asset_id"@))
            .push(JsonModel::Str("fields"@))))))
}

fn build_schema_update_asset() -> (r: JsonValue)
    ensures
        model(r) == schema_update_asset(),
{
    let mut o1: Vec<JsonEntry> = Vec::new();
    push_member(&mut o1, "type", json_str("object"));
    let mut o2: Vec<JsonEntry> = Vec::new();
    push_member(&mut o2, "asset_id", prop("integer", "The asset ID"));
    push_member(&mut o2, "fields", prop("object", "Fields to update"));
    push_member(&mut o1, "properties", JsonValue::Object(o2));
    let mut a3: Vec<JsonValue> = Vec::new();
    push_item(&mut a3, json_str("asset_id"));
    push_item(&mut a3, json_str("fields"));
    push_member(&mut o1, "required", JsonValue::Array(a3));
    JsonValue::Object(o1)
}

/// The input schema of `list_asset_software`.
pub open spec fn schema_list_asset_software() -> JsonModel {
    JsonModel::Object(Seq::empty()
        .push(("type"@, JsonModel::Str("object"@)))
        .push(("properties"@, JsonModel::Object(Seq::empty()
            .push(("asset_id"@, spec_prop("integer"@, "The asset/device ID"@))))))
        .push(("required"@, JsonModel::Array(Seq::empty()
            .push(JsonModel::Str("asset_id"@))))))
}

fn build_schema_list_asset_software() -> (r: JsonValue)
    ensures
        model(r) == schema_list_asset_software(),
{
    let mut o1: Vec<JsonEntry> = Vec::new();
    push_member(&mut o1, "type", json_str("object"));
    let mut o2: Vec<JsonEntry> = Vec::new();
    push_member(&mut o2, "asset_id", prop("integer", "The asset/device ID"));
    push_member(&mut o1, "properties", JsonValue::Object(o2));
    let mut a3: Vec<JsonValue> = Vec::new();
    push_item(&mut a3, json_str("asset_id"));
    push_member(&mut o1, "required", JsonValue::Array(a3));
    JsonValue::Object(o1)
}

/// The input schema of `list_roles`.
pub open spec fn schema_list_roles() -> JsonModel {
    JsonModel::Object(Seq::empty()
        .push(("type"@, JsonModel::Str("object"@)))
        .push(("properties"@, JsonModel::Object(Seq::empty()
            .push(("page"@, spec_prop_default("integer"@, "Page number (default 1)"@, JsonModel::Int(1))))
            .push(("page_size"@, spec_prop_default("integer"@, "Results per page (1-100, default 50)"@, JsonModel::Int(50))))))))
}

fn build_schema_list_roles() -> (r: JsonValue)
    ensures
        model(r) == schema_list_roles(),
{
    let mut o1: Vec<JsonEntry> = Vec::new();
    push_member(&mut o1, "type", json_str("object"));
    let mut o2: Vec<JsonEntry> = Vec::new();
    push_member(&mut o2, "page", prop_default("integer", "Page number (default 1)", JsonValue::Int(1)));
    push_member(&mut o2, "page_size", prop_default("integer", "Results per page (1-100, default 50)", JsonValue::Int(50)));
    push_member(&mut o1, "properties", JsonValue::Object(o2));
    JsonValue::Object(o1)
}

/// The input schema of `get_role`.
pub open spec fn schema_get_role() -> JsonModel {
    JsonModel::Object(Seq::empty()
        .push(("type"@, JsonModel::Str("object"@)))
        .push(("properties"@, JsonModel::Object(Seq::empty()
            .push(("role_id"@, spec_prop("integer"@, "The role ID"@))))))
        .push(("required"@, JsonModel::Array(Seq::empty()
            .push(JsonModel::Str("role_id"@))))))
}

fn build_schema_get_role() -> (r: JsonValue)
    ensures
        model(r) == schema_get_role(),
{
    let mut o1: Vec<JsonEntry> = Vec::new();
    push_member(&mut o1, "type", json_str("object"));
    let mut o2: Vec<JsonEntry> = Vec::new();
    push_member(&mut o2, "role_id", prop("integer", "The role ID"));
    push_member(&mut o1, "properties", JsonValue::Object(o2));
    let mut a3: Vec<JsonValue> = Vec::new();
    push_item(&mut a3, json_str("role_id"));
    push_member(&mut o1, "required", JsonValue::Array(a3));
    JsonValue::Object(o1)
}

/// The input schema of `create_role`.
pub open spec fn schema_create_role() -> JsonModel {
    JsonModel::Object(Seq::empty()
        .push(("type"@, JsonModel::Str("object"@)))
        .push(("properties"@, JsonModel::Object(Seq::empty()
            .push(("fields"@, spec_prop("object"@, "Role fields, e.g. { \"name\": \"L2 Support\" }"@))))))
        .push(("required"@, JsonModel::Array(Seq::empty()
            .push(JsonModel::Str("fields"@))))))
}

fn build_schema_create_role() -> (r: JsonValue)
    ensures
        model(r) == schema_create_role(),
{
    let mut o1: Vec<JsonEntry> = Vec::new();
    push_member(&mut o1, "type", json_str("object"));
    let mut o2: Vec<JsonEntry> = Vec::new();
    push_member(&mut o2, "fields", prop("object", "Role fields, e.g. { \"name\": \"L2 Support\" }"));
    push_member(&mut o1, "properties", JsonValue::Object(o2));
    let mut a3: Vec<JsonValue> = Vec::new();
    push_item(&mut a3, json_str("fields"));
    push_member(&mut o1, "required", JsonValue::Array(a3));
    JsonValue::Object(o1)
}

/// The input schema of `update_role`.
pub open spec fn schema_update_role() -> JsonModel {
    JsonModel::Object(Seq::empty()
        .push(("type"@, JsonModel::Str("object"@)))
        .push(("properties"@, JsonModel::Object(Seq::empty()
            .push(("role_id"@, spec_prop("integer"@, "The role ID"@)))
            .push(("fields"@, spec_prop("object"@, "Fields to update"@))))))
        .push(("required"@, JsonModel::Array(Seq::empty()
            .push(JsonModel::Str("role_id"@))
            .push(JsonModel::Str("fields"@))))))
}

fn build_schema_update_role() -> (r: JsonValue)
    ensures
        model(r) == schema_update_role(),
{
    let mut o1: Vec<JsonEntry> = Vec::new();
    push_member(&mut o1, "type", json_str("object"));
    let mut o2: Vec<JsonEntry> = Vec::new();
    push_member(&mut o2, "role_id", prop("integer", "The role ID"));
    push_member(&mut o2, "fields", prop("object", "Fields to update"));
    push_member(&mut o1, "properties", JsonValue::Object(o2));
    let mut a3: Vec<JsonValue> = Vec::new();
    push_item(&mut a3, json_str("role_id"));
    push_item(&mut a3, json_str("fields"));
    push_member(&mut o1, "required", JsonValue::Array(a3));
    JsonValue::Object(o1)
}

/// The input schema of `delete_role`.
pub open spec fn schema_delete_role() -> JsonModel {
    JsonModel::Object(Seq::empty()
        .push(("type"@, JsonModel::Str("object"@)))
        .push(("properties"@, JsonModel::Object(Seq::empty()
            .push(("role_id"@, spec_prop("integer"@, "The role ID"@))))))
        .push(("required"@, JsonModel::Array(Seq::empty()
            .push(JsonModel::Str("role_id"@))))))
}

fn build_schema_delete_role() -> (r: JsonValue)
    ensures
        model(r) == schema_delete_role(),
{
    let mut o1: Vec<JsonEntry> = Vec::new();
    push_member(&mut o1, "type", json_str("object"));
    let mut o2: Vec<JsonEntry> = Vec::new();
    push_member(&mut o2, "role_id", prop("integer", "The role ID"));
    push_member(&mut o1, "properties", JsonValue::Object(o2));
    let mut a3: Vec<JsonValue> = Vec::new();
    push_item(&mut a3, json_str("role_id"));
    push_member(&mut o1, "required", JsonValue::Array(a3));
    JsonValue::Object(o1)
}

/// The input schema of `list_tags`.
pub open spec fn schema_list_tags() -> JsonModel {
    JsonModel::Object(Seq::empty()
        .push(("type"@, JsonModel::Str("object"@)))
        .push(("properties"@, JsonModel::Object(Seq::empty()
            .push(("search"@, spec_prop("string"@, "Search tags by name (optional)"@)))
            .push(("page"@, spec_prop_default("integer"@, "Page number (default 1)"@, JsonModel::Int(1))))
            .push(("page_size"@, spec_prop_default("integer"@, "Results per page (1-100, default 50)"@, JsonModel::Int(50))))))))
}

fn build_schema_list_tags() -> (r: JsonValue)
    ensures
        model(r) == schema_list_tags(),
{
    let mut o1: Vec<JsonEntry> = Vec::new();
    push_member(&mut o1, "type", json_str("object"));
    let mut o2: Vec<JsonEntry> = Vec::new();
    push_member(&mut o2, "search", prop("string", "Search tags by name (optional)"));
    push_member(&mut o2, "page", prop_default("integer", "Page number (default 1)", JsonValue::Int(1)));
    push_member(&mut o2, "page_size", prop_default("integer", "Results per page (1-100, default 50)", JsonValue::Int(50)));
    push_member(&mut o1, "properties", JsonValue::Object(o2));
    JsonValue::Object(o1)
}

/// The input schema of `get_tag`.
pub open spec fn schema_get_tag() -> JsonModel {
    JsonModel::Object(Seq::empty()
        .push(("type"@, JsonModel::Str("object"@)))
        .push(("properties"@, JsonModel::Object(Seq::empty()
            .push(("tag_id"@, spec_prop("integer"@, "The tag ID"@))))))
        .push(("required"@, JsonModel::Array(Seq::empty()
            .push(JsonModel::Str("tag_id"@))))))
}

fn build_schema_get_tag() -> (r: JsonValue)
    ensures
        model(r) == schema_get_tag(),
{
    let mut o1: Vec<JsonEntry> = Vec::new();
    push_member(&mut o1, "type", json_str("object"));
    let mut o2: Vec<JsonEntry> = Vec::new();
    push_member(&mut o2, "tag_id", prop("integer", "The tag ID"));
    push_member(&mut o1, "properties", JsonValue::Object(o2));
    let mut a3: Vec<JsonValue> = Vec::new();
    push_item(&mut a3, json_str("tag_id"));
    push_member(&mut o1, "required", JsonValue::Array(a3));
    JsonValue::Object(o1)
}

/// The input schema of `create_tag`.
pub open spec fn schema_create_tag() -> JsonModel {
    JsonModel::Object(Seq::empty()
        .push(("type"@, JsonModel::Str("object"@)))
        .push(("properties"@, JsonModel::Object(Seq::empty()
            .push(("fields"@, spec_prop("object"@, "Tag fields, e.g. { \"text\": \"VIP\" }"@))))))
        .push(("required"@, JsonModel::Array(Seq::empty()
            .push(JsonModel::Str("fields"@))))))
}

fn build_schema_create_tag() -> (r: JsonValue)
    ensures
        model(r) == schema_create_tag(),
{
    let mut o1: Vec<JsonEntry> = Vec::new();
    push_member(&mut o1, "type", json_str("object"));
    let mut o2: Vec<JsonEntry> = Vec::new();
    push_member(&mut o2, "fields", prop("object", "Tag fields, e.g. { \"text\": \"VIP\" }"));
    push_member(&mut o1, "properties", JsonValue::Object(o2));
    let mut a3: Vec<JsonValue> = Vec::new();
    push_item(&mut a3, json_str("fields"));
    push_member(&mut o1, "required", JsonValue::Array(a3));
    JsonValue::Object(o1)
}

/// The input schema of `delete_tag`.
pub open spec fn schema_delete_tag() -> JsonModel {
    JsonModel::Object(Seq::empty()
        .push(("type"@, JsonModel::Str("object"@)))
        .push(("properties"@, JsonModel::Object(Seq::empty()
            .push(("tag_id"@, spec_prop("integer"@, "The tag ID"@))))))
        .push(("required"@, JsonModel::Array(Seq::empty()
            .push(JsonModel::Str("tag_id"@))))))
}

fn build_schema_delete_tag() -> (r: JsonValue)
    ensures
        model(r) == schema_delete_tag(),
{
    let mut o1: Vec<JsonEntry> = Vec::new();
    push_member(&mut o1, "type", json_str("object"));
    let mut o2: Vec<JsonEntry> = Vec::new();
    push_member(&mut o2, "tag_id", prop("integer", "The tag ID"));
    push_member(&mut o1, "properties", JsonValue::Object(o2));
    let mut a3: Vec<JsonValue> = Vec::new();
    push_item(&mut a3, json_str("tag_id"));
    push_member(&mut o1, "required", JsonValue::Array(a3));
    JsonValue::Object(o1)
}

/// The input schema of `list_item_groups`.
pub open spec fn schema_list_item_groups() -> JsonModel {
    JsonModel::Object(Seq::empty()
        .push(("type"@, JsonModel::Str("object"@)))
        .push(("properties"@, JsonModel::Object(Seq::empty()
            .push(("page"@, spec_prop_default("integer"@, "Page number (default 1)"@, JsonModel::Int(1))))
            .push(("page_size"@, spec_prop_default("integer"@, "Results per page (1-200, default 50)"@, JsonModel::Int(50))))))))
}

fn build_schema_list_item_groups() -> (r: JsonValue)
    ensures
        model(r) == schema_list_item_groups(),
{
    let mut o1: Vec<JsonEntry> = Vec::new();
    push_member(&mut o1, "type", json_str("object"));
    let mut o2: Vec<JsonEntry> = Vec::new();
    push_member(&mut o2, "page", prop_default("integer", "Page number (default 1)", JsonValue::Int(1)));
    push_member(&mut o2, "page_size", prop_default("integer", "Results per page (1-200, default 50)", JsonValue::Int(50)));
    push_member(&mut o1, "properties", JsonValue::Object(o2));
    JsonValue::Object(o1)
}

/// The input schema of `get_item_group`.
pub open spec fn schema_get_item_group() -> JsonModel {
    JsonModel::Object(Seq::empty()
        .push(("type"@, JsonModel::Str("object"@)))
        .push(("properties"@, JsonModel::Object(Seq::empty()
            .push(("group_id"@, spec_prop("integer"@, "The item group ID"@))))))
        .push(("required"@, JsonModel::Array(Seq::empty()
            .push(JsonModel::Str("group_id"@))))))
}

fn build_schema_get_item_group() -> (r: JsonValue)
    ensures
        model(r) == schema_get_item_group(),
{
    let mut o1: Vec<JsonEntry> = Vec::new();
    push_member(&mut o1, "type", json_str("object"));
    let mut o2: Vec<JsonEntry> = Vec::new();
    push_member(&mut o2, "group_id", prop("integer", "The item group ID"));
    push_member(&mut o1, "properties", JsonValue::Object(o2));
    let mut a3: Vec<JsonValue> = Vec::new();
    push_item(&mut a3, json_str("group_id"));
    push_member(&mut o1, "required", JsonValue::Array(a3));
    JsonValue::Object(o1)
}

/// The input schema of `create_item_group`.
pub open spec fn schema_create_item_group() -> JsonModel {
    JsonModel::Object(Seq::empty()
        .push(("type"@, JsonModel::Str("object"@)))
        .push(("properties"@, JsonModel::Object(Seq::empty()
            .push(("fields"@, spec_prop("object"@, "Group fields, e.g. { \"name\": \"Networking Equipment\" }"@))))))
        .push(("required"@, JsonModel::Array(Seq::empty()
            .push(JsonModel::Str("fields"@))))))
}

fn build_schema_create_item_group() -> (r: JsonValue)
    ensures
        model(r) == schema_create_item_group(),
{
    let mut o1: Vec<JsonEntry> = Vec::new();
    push_member(&mut o1, "type", json_str("object"));
    let mut o2: Vec<JsonEntry> = Vec::new();
    push_member(&mut o2, "fields", prop("object", "Group fields, e.g. { \"name\": \"Networking Equipment\" }"));
    push_member(&mut o1, "properties", JsonValue::Object(o2));
    let mut a3: Vec<JsonValue> = Vec::new();
    push_item(&mut a3, json_str("fields"));
    push_member(&mut o1, "required", JsonValue::Array(a3));
    JsonValue::Object(o1)
}

/// The input schema of `delete_item_group`.
pub open spec fn schema_delete_item_group() -> JsonModel {
    JsonModel::Object(Seq::empty()
        .push(("type"@, JsonModel::Str("object"@)))
        .push(("properties"@, JsonModel::Object(Seq::empty()
            .push(("group_id"@, spec_prop("integer"@, "The item group ID"@))))))
        .push(("required"@, JsonModel::Array(Seq::empty()
            .push(JsonModel::Str("group_id"@))))))
}

fn build_schema_delete_item_group() -> (r: JsonValue)
    ensures
        model(r) == schema_delete_item_group(),
{
    let mut o1: Vec<JsonEntry> = Vec::new();
    push_member(&mut o1, "type", json_str("object"));
    let mut o2: Vec<JsonEntry> = Vec::new();
    push_member(&mut o2, "group_id", prop("integer", "The item group ID"));
    push_member(&mut o1, "properties", JsonValue::Object(o2));
    let mut a3: Vec<JsonValue> = Vec::new();
    push_item(&mut a3, json_str("group_id"));
    push_member(&mut o1, "required", JsonValue::Array(a3));
    JsonValue::Object(o1)
}

/// The input schema of `list_items`.
pub open spec fn schema_list_items() -> JsonModel {
    JsonModel::Object(Seq::empty()
        .push(("type"@, JsonModel::Str("object"@)))
        .push(("properties"@, JsonModel::Object(Seq::empty()
            .push(("search"@, spec_prop("string"@, "Search by name or description (optional)"@)))
            .push(("page"@, spec_prop_default("integer"@, "Page number (default 1)"@, JsonModel::Int(1))))
            .push(("page_size"@, spec_prop_default("integer"@, "Results per page (1-200, default 50)"@, JsonModel::Int(50))))))))
}

fn build_schema_list_items() -> (r: JsonValue)
    ensures
        model(r) == schema_list_items(),
{
    let mut o1: Vec<JsonEntry> = Vec::new();
    push_member(&mut o1, "type", json_str("object"));
    let mut o2: Vec<JsonEntry> = Vec::new();
    push_member(&mut o2, "search", prop("string", "Search by name or description (optional)"));
    push_member(&mut o2, "page", prop_default("integer", "Page number (default 1)", JsonValue::Int(1)));
    push_member(&mut o2, "page_size", prop_default("integer", "Results per page (1-200, default 50)", JsonValue::Int(50)));
    push_member(&mut o1, "properties", JsonValue::Object(o2));
    JsonValue::Object(o1)
}

/// The input schema of `get_item`.
pub open spec fn schema_get_item() -> JsonModel {
    JsonModel::Object(Seq::empty()
        .push(("type"@, JsonModel::Str("object"@)))
        .push(("properties"@, JsonModel::Object(Seq::empty()
            .push(("item_id"@, spec_prop("integer"@, "The item ID"@))))))
        .push(("required"@, JsonModel::Array(Seq::empty()
            .push(JsonModel::Str("item_id"@))))))
}

fn build_schema_get_item() -> (r: JsonValue)
    ensures
        model(r) == schema_get_item(),
{
    let mut o1: Vec<JsonEntry> = Vec::new();
    push_member(&mut o1, "type", json_str("object"));
    let mut o2: Vec<JsonEntry> = Vec::new();
    push_member(&mut o2, "item_id", prop("integer", "The item ID"));
    push_member(&mut o1, "properties", JsonValue::Object(o2));
    let mut a3: Vec<JsonValue> = Vec::new();
    push_item(&mut a3, json_str("item_id"));
    push_member(&mut o1, "required", JsonValue::Array(a3));
    JsonValue::Object(o1)
}

/// The input schema of `create_item`.
pub open spec fn schema_create_item() -> JsonModel {
    JsonModel::Object(Seq::empty()
        .push(("type"@, JsonModel::Str("object"@)))
        .push(("properties"@, JsonModel::Object(Seq::empty()
            .push(("fields"@, spec_prop("object"@, "Item fields, e.g. { \"name\": \"USB-C Hub\", \"assetgroup_id\": 27, \"baseprice\": 49.99 }. assetgroup_id is required (HaloPSA returns 'Item group must be completed' without it)."@))))))
        .push(("required"@, JsonModel::Array(Seq::empty()
            .push(JsonModel::Str("fields"@))))))
}

fn build_schema_create_item() -> (r: JsonValue)
    ensures
        model(r) == schema_create_item(),
{
    let mut o1: Vec<JsonEntry> = Vec::new();
    push_member(&mut o1, "type", json_str("object"));
    let mut o2: Vec<JsonEntry> = Vec::new();
    push_member(&mut o2, "fields", prop("object", "Item fields, e.g. { \"name\": \"USB-C Hub\", \"assetgroup_id\": 27, \"baseprice\": 49.99 }. assetgroup_id is required (HaloPSA returns 'Item group must be completed' without it)."));
    push_member(&mut o1, "properties", JsonValue::Object(o2));
    let mut a3: Vec<JsonValue> = Vec::new();
    push_item(&mut a3, json_str("fields"));
    push_member(&mut o1, "required", JsonValue::Array(a3));
    JsonValue::Object(o1)
}

/// The input schema of `list_item_stock`.
pub open spec fn schema_list_item_stock() -> JsonModel {
    JsonModel::Object(Seq::empty()
        .push(("type"@, JsonModel::Str("object"@)))
        .push(("properties"@, JsonModel::Object(Seq::empty()
            .push(("item_id"@, spec_prop("integer"@, "Filter by item ID (optional)"@)))))))
}

fn build_schema_list_item_stock() -> (r: JsonValue)
    ensures
        model(r) == schema_list_item_stock(),
{
    let mut o1: Vec<JsonEntry> = Vec::new();
    push_member(&mut o1, "type", json_str("object"));
    let mut o2: Vec<JsonEntry> = Vec::new();
    push_member(&mut o2, "item_id", prop("integer", "Filter by item ID (optional)"));
    push_member(&mut o1, "properties", JsonValue::Object(o2));
    JsonValue::Object(o1)
}

/// The input schema of `list_products`.
pub open spec fn schema_list_products() -> JsonModel {
    JsonModel::Object(Seq::empty()
        .push(("type"@, JsonModel::Str("object"@)))
        .push(("properties"@, JsonModel::Object(Seq::empty()
            .push(("search"@, spec_prop("string"@, "Search by name or description (optional)"@)))
            .push(("page"@, spec_prop_default("integer"@, "Page number (default 1)"@, JsonModel::Int(1))))
            .push(("page_size"@, spec_prop_default("integer"@, "Results per page (1-100, default 50)"@, JsonModel::Int(50))))))))
}

fn build_schema_list_products() -> (r: JsonValue)
    ensures
        model(r) == schema_list_products(),
{
    let mut o1: Vec<JsonEntry> = Vec::new();
    push_member(&mut o1, "type", json_str("object"));
    let mut o2: Vec<JsonEntry> = Vec::new();
    push_member(&mut o2, "search", prop("string", "Search by name or description (optional)"));
    push_member(&mut o2, "page", prop_default("integer", "Page number (default 1)", JsonValue::Int(1)));
    push_member(&mut o2, "page_size", prop_default("integer", "Results per page (1-100, default 50)", JsonValue::Int(50)));
    push_member(&mut o1, "properties", JsonValue::Object(o2));
    JsonValue::Object(o1)
}

/// The input schema of `get_product`.
pub open spec fn schema_get_product() -> JsonModel {
    JsonModel::Object(Seq::empty()
        .push(("type"@, JsonModel::Str("object"@)))
        .push(("properties"@, JsonModel::Object(Seq::empty()
            .push(("product_id"@, spec_prop("integer"@, "The product ID"@))))))
        .push(("required"@, JsonModel::Array(Seq::empty()
            .push(JsonModel::Str("product_id"@))))))
}

fn build_schema_get_product() -> (r: JsonValue)
    ensures
        model(r) == schema_get_product(),
{
    let mut o1: Vec<JsonEntry> = Vec::new();
    push_member(&mut o1, "type", json_str("object"));
    let mut o2: Vec<JsonEntry> = Vec::new();
    push_member(&mut o2, "product_id", prop("integer", "The product ID"));
    push_member(&mut o1, "properties", JsonValue::Object(o2));
    let mut a3: Vec<JsonValue> = Vec::new();
    push_item(&mut a3, json_str("product_id"));
    push_member(&mut o1, "required", JsonValue::Array(a3));
    JsonValue::Object(o1)
}

/// The input schema of `create_product`.
pub open spec fn schema_create_product() -> JsonModel {
    JsonModel::Object(Seq::empty()
        .push(("type"@, JsonModel::Str("object"@)))
        .push(("properties"@, JsonModel::Object(Seq::empty()
            .push(("fields"@, spec_prop("object"@, "Product fields, e.g. { \"name\": \"Standard Laptop Bundle\" }"@))))))
        .push(("required"@, JsonModel::Array(Seq::empty()
            .push(JsonModel::Str("fields"@))))))
}

fn build_schema_create_product() -> (r: JsonValue)
    ensures
        model(r) == schema_create_product(),
{
    let mut o1: Vec<JsonEntry> = Vec::new();
    push_member(&mut o1, "type", json_str("object"));
    let mut o2: Vec<JsonEntry> = Vec::new();
    push_member(&mut o2, "fields", prop("object", "Product fields, e.g. { \"name\": \"Standard Laptop Bundle\" }"));
    push_member(&mut o1, "properties", JsonValue::Object(o2));
    let mut a3: Vec<JsonValue> = Vec::new();
    push_item(&mut a3, json_str("fields"));
    push_member(&mut o1, "required", JsonValue::Array(a3));
    JsonValue::Object(o1)
}

/// The input schema of `delete_product`.
pub open spec fn schema_delete_product() -> JsonModel {
    JsonModel::Object(Seq::empty()
        .push(("type"@, JsonModel::Str("object"@)))
        .push(("properties"@, JsonModel::Object(Seq::empty()
            .push(("product_id"@, spec_prop("integer"@, "The product ID"@))))))
        .push(("required"@, JsonModel::Array(Seq::empty()
            .push(JsonModel::Str("product_id"@))))))
}

fn build_schema_delete_product() -> (r: JsonValue)
    ensures
        model(r) == schema_delete_product(),
{
    let mut o1: Vec<JsonEntry> = Vec::new();
    push_member(&mut o1, "type", json_str("object"));
    let mut o2: Vec<JsonEntry> = Vec::new();
    push_member(&mut o2, "product_id", prop("integer", "The product ID"));
    push_member(&mut o1, "properties", JsonValue::Object(o2));
    let mut a3: Vec<JsonValue> = Vec::new();
    push_item(&mut a3, json_str("product_id"));
    push_member(&mut o1, "required", JsonValue::Array(a3));
    JsonValue::Object(o1)
}

/// The input schema of `list_product_components`.
pub open spec fn schema_list_product_components() -> JsonModel {
    JsonModel::Object(Seq::empty()
        .push(("type"@, JsonModel::Str("object"@)))
        .push(("properties"@, JsonModel::Object(Seq::empty()
            .push(("product_id"@, spec_prop("integer"@, "Filter by product ID (optional)"@)))
            .push(("page"@, spec_prop_default("integer"@, "Page number (default 1)"@, JsonModel::Int(1))))
            .push(("page_size"@, spec_prop_default("integer"@, "Results per page (1-100, default 50)"@, JsonModel::Int(50))))))))
}

fn build_schema_list_product_components() -> (r: JsonValue)
    ensures
        model(r) == schema_list_product_components(),
{
    let mut o1: Vec<JsonEntry> = Vec::new();
    push_member(&mut o1, "type", json_str("object"));
    let mut o2: Vec<JsonEntry> = Vec::new();
    push_member(&mut o2, "product_id", prop("integer", "Filter by product ID (optional)"));
    push_member(&mut o2, "page", prop_default("integer", "Page number (default 1)", JsonValue::Int(1)));
    push_member(&mut o2, "page_size", prop_default("integer", "Results per page (1-100, default 50)", JsonValue::Int(50)));
    push_member(&mut o1, "properties", JsonValue::Object(o2));
    JsonValue::Object(o1)
}

/// The input schema of `create_product_component`.
pub open spec fn schema_create_product_component() -> JsonModel {
    JsonModel::Object(Seq::empty()
        .push(("type"@, JsonModel::Str("object"@)))
        .push(("properties"@, JsonModel::Object(Seq::empty()
            .push(("fields"@, spec_prop("object"@, "e.g. { \"product_id\": 5, \"item_id\": 12, \"quantity\": 1 }"@))))))
        .push(("required"@, JsonModel::Array(Seq::empty()
            .push(JsonModel::Str("fields"@))))))
}

fn build_schema_create_product_component() -> (r: JsonValue)
    ensures
        model(r) == schema_create_product_component(),
{
    let mut o1: Vec<JsonEntry> = Vec::new();
    push_member(&mut o1, "type", json_str("object"));
    let mut o2: Vec<JsonEntry> = Vec::new();
    push_member(&mut o2, "fields", prop("object", "e.g. { \"product_id\": 5, \"item_id\": 12, \"quantity\": 1 }"));
    push_member(&mut o1, "properties", JsonValue::Object(o2));
    let mut a3: Vec<JsonValue> = Vec::new();
    push_item(&mut a3, json_str("fields"));
    push_member(&mut o1, "required", JsonValue::Array(a3));
    JsonValue::Object(o1)
}

/// The input schema of `list_quotations`.
pub open spec fn schema_list_quotations() -> JsonModel {
    JsonModel::Object(Seq::empty()
        .push(("type"@, JsonModel::Str("object"@)))
        .push(("properties"@, JsonModel::Object(Seq::empty()
            .push(("client_id"@, spec_prop("integer"@, "Filter by client ID (optional)"@)))
            .push(("page"@, spec_prop_default("integer"@, "Page number (default 1)"@, JsonModel::Int(1))))
            .push(("page_size"@, spec_prop_default("integer"@, "Results per page (1-200, default 50)"@, JsonModel::Int(50))))))))
}

fn build_schema_list_quotations() -> (r: JsonValue)
    ensures
        model(r) == schema_list_quotations(),
{
    let mut o1: Vec<JsonEntry> = Vec::new();
    push_member(&mut o1, "type", json_str("object"));
    let mut o2: Vec<JsonEntry> = Vec::new();
    push_member(&mut o2, "client_id", prop("integer", "Filter by client ID (optional)"));
    push_member(&mut o2, "page", prop_default("integer", "Page number (default 1)", JsonValue::Int(1)));
    push_member(&mut o2, "page_size", prop_default("integer", "Results per page (1-200, default 50)", JsonValue::Int(50)));
    push_member(&mut o1, "properties", JsonValue::Object(o2));
    JsonValue::Object(o1)
}

/// The input schema of `get_quotation`.
pub open spec fn schema_get_quotation() -> JsonModel {
    JsonModel::Object(Seq::empty()
        .push(("type"@, JsonModel::Str("object"@)))
        .push(("properties"@, JsonModel::Object(Seq::empty()
            .push(("quotation_id"@, spec_prop("integer"@, "The quotation ID"@))))))
        .push(("required"@, JsonModel::Array(Seq::empty()
            .push(JsonModel::Str("quotation_id"@))))))
}

fn build_schema_get_quotation() -> (r: JsonValue)
    ensures
        model(r) == schema_get_quotation(),
{
    let mut o1: Vec<JsonEntry> = Vec::new();
    push_member(&mut o1, "type", json_str("object"));
    let mut o2: Vec<JsonEntry> = Vec::new();
    push_member(&mut o2, "quotation_id", prop("integer", "The quotation ID"));
    push_member(&mut o1, "properties", JsonValue::Object(o2));
    let mut a3: Vec<JsonValue> = Vec::new();
    push_item(&mut a3, json_str("quotation_id"));
    push_member(&mut o1, "required", JsonValue::Array(a3));
    JsonValue::Object(o1)
}

/// The input schema of `create_quotation`.
pub open spec fn schema_create_quotation() -> JsonModel {
    JsonModel::Object(Seq::empty()
        .push(("type"@, JsonModel::Str("object"@)))
        .push(("properties"@, JsonModel::Object(Seq::empty()
            .push(("fields"@, spec_prop("object"@, "Quotation fields, e.g. { \"client_id\": 1, \"title\": \"Office Refresh\", \"user_id\": 42 }. user_id is required."@))))))
        .push(("required"@, JsonModel::Array(Seq::empty()
            .push(JsonModel::Str("fields"@))))))
}

fn build_schema_create_quotation() -> (r: JsonValue)
    ensures
        model(r) == schema_create_quotation(),
{
    let mut o1: Vec<JsonEntry> = Vec::new();
    push_member(&mut o1, "type", json_str("object"));
    let mut o2: Vec<JsonEntry> = Vec::new();
    push_member(&mut o2, "fields", prop("object", "Quotation fields, e.g. { \"client_id\": 1, \"title\": \"Office Refresh\", \"user_id\": 42 }. user_id is required."));
    push_member(&mut o1, "properties", JsonValue::Object(o2));
    let mut a3: Vec<JsonValue> = Vec::new();
    push_item(&mut a3, json_str("fields"));
    push_member(&mut o1, "required", JsonValue::Array(a3));
    JsonValue::Object(o1)
}

/// The input schema of `update_quotation_lines`.
pub open spec fn schema_update_quotation_lines() -> JsonModel {
    JsonModel::Object(Seq::empty()
        .push(("type"@, JsonModel::Str("object"@)))
        .push(("properties"@, JsonModel::Object(Seq::empty()
            .push(("quotation_id"@, spec_prop("integer"@, "The quotation ID"@)))
            .push(("lines"@, JsonModel::Object(Seq::empty()
                .push(("type"@, JsonModel::Str("array"@)))
                .push(("description"@, JsonModel::Str("Updated line items"@)))
                .push(("items"@, JsonModel::Object(Seq::empty()
                    .push(("type"@, JsonModel::Str("object"@))))))))))))
        .push(("required"@, JsonModel::Array(Seq::empty()
            .push(JsonModel::Str("quotation_id"@))
            .push(JsonModel::Str("lines"@))))))
}

fn build_schema_update_quotation_lines() -> (r: JsonValue)
    ensures
        model(r) == schema_update_quotation_lines(),
{
    let mut o1: Vec<JsonEntry> = Vec::new();
    push_member(&mut o1, "type", json_str("object"));
    let mut o2: Vec<JsonEntry> = Vec::new();
    push_member(&mut o2, "quotation_id", prop("integer", "The quotation ID"));
    let mut o3: Vec<JsonEntry> = Vec::new();
    push_member(&mut o3, "type", json_str("array"));
    push_member(&mut o3, "description", json_str("Updated line items"));
    let mut o4: Vec<JsonEntry> = Vec::new();
    push_member(&mut o4, "type", json_str("object"));
    push_member(&mut o3, "items", JsonValue::Object(o4));
    push_member(&mut o2, "lines", JsonValue::Object(o3));
    push_member(&mut o1, "properties", JsonValue::Object(o2));
    let mut a5: Vec<JsonValue> = Vec::new();
    push_item(&mut a5, json_str("quotation_id"));
    push_item(&mut a5, json_str("lines"));
    push_member(&mut o1, "required", JsonValue::Array(a5));
    JsonValue::Object(o1)
}

/// The input schema of `approve_quotation`.
pub open spec fn schema_approve_quotation() -> JsonModel {
    JsonModel::Object(Seq::empty()
        .push(("type"@, JsonModel::Str("object"@)))
        .push(("properties"@, JsonModel::Object(Seq::empty()
            .push(("quotation_id"@, spec_prop("integer"@, "The quotation ID"@)))
            .push(("approved"@, spec_prop("boolean"@, "true to approve, false to reject"@)))
            .push(("notes"@, spec_prop("string"@, "Optional approval note"@))))))
        .push(("required"@, JsonModel::Array(Seq::empty()
            .push(JsonModel::Str("quotation_id"@))
            .push(JsonModel::Str("approved"@))))))
}

fn build_schema_approve_quotation() -> (r: JsonValue)
    ensures
        model(r) == schema_approve_quotation(),
{
    let mut o1: Vec<JsonEntry> = Vec::new();
    push_member(&mut o1, "type", json_str("object"));
    let mut o2: Vec<JsonEntry> = Vec::new();
    push_member(&mut o2, "quotation_id", prop("integer", "The quotation ID"));
    push_member(&mut o2, "approved", prop("boolean", "true to approve, false to reject"));
    push_member(&mut o2, "notes", prop("string", "Optional approval note"));
    push_member(&mut o1, "properties", JsonValue::Object(o2));
    let mut a3: Vec<JsonValue> = Vec::new();
    push_item(&mut a3, json_str("quotation_id"));
    push_item(&mut a3, json_str("approved"));
    push_member(&mut o1, "required", JsonValue::Array(a3));
    JsonValue::Object(o1)
}

/// The input schema of `view_quotation`.
pub open spec fn schema_view_quotation() -> JsonModel {
    JsonModel::Object(Seq::empty()
        .push(("type"@, JsonModel::Str("object"@)))
        .push(("properties"@, JsonModel::Object(Seq::empty()
            .push(("quotation_id"@, spec_prop("integer"@, "The quotation ID"@))))))
        .push(("required"@, JsonModel::Array(Seq::empty()
            .push(JsonModel::Str("quotation_id"@))))))
}

fn build_schema_view_quotation() -> (r: JsonValue)
    ensures
        model(r) == schema_view_quotation(),
{
    let mut o1: Vec<JsonEntry> = Vec::new();
    push_member(&mut o1, "type", json_str("object"));
    let mut o2: Vec<JsonEntry> = Vec::new();
    push_member(&mut o2, "quotation_id", prop("integer", "The quotation ID"));
    push_member(&mut o1, "properties", JsonValue::Object(o2));
    let mut a3: Vec<JsonValue> = Vec::new();
    push_item(&mut a3, json_str("quotation_id"));
    push_member(&mut o1, "required", JsonValue::Array(a3));
    JsonValue::Object(o1)
}

/// The input schema of `list_timesheets`.
pub open spec fn schema_list_timesheets() -> JsonModel {
    JsonModel::Object(Seq::empty()
        .push(("type"@, JsonModel::Str("object"@)))
        .push(("properties"@, JsonModel::Object(Seq::empty()
            .push(("agent_id"@, spec_prop("integer"@, "Filter by agent ID (optional)"@)))))))
}

fn build_schema_list_timesheets() -> (r: JsonValue)
    ensures
        model(r) == schema_list_timesheets(),
{
    let mut o1: Vec<JsonEntry> = Vec::new();
    push_member(&mut o1, "type", json_str("object"));
    let mut o2: Vec<JsonEntry> = Vec::new();
    push_member(&mut o2, "agent_id", prop("integer", "Filter by agent ID (optional)"));
    push_member(&mut o1, "properties", JsonValue::Object(o2));
    JsonValue::Object(o1)
}

/// The input schema of `get_my_timesheets`.
pub open spec fn schema_get_my_timesheets() -> JsonModel {
    JsonModel::Object(Seq::empty()
        .push(("type"@, JsonModel::Str("object"@)))
        .push(("properties"@, JsonModel::Object(Seq::empty()))))
}

fn build_schema_get_my_timesheets() -> (r: JsonValue)
    ensures
        model(r) == schema_get_my_timesheets(),
{
    let mut o1: Vec<JsonEntry> = Vec::new();
    push_member(&mut o1, "type", json_str("object"));
    let mut o2: Vec<JsonEntry> = Vec::new();
    push_member(&mut o1, "properties", JsonValue::Object(o2));
    JsonValue::Object(o1)
}

/// The input schema of `get_timesheet`.
pub open spec fn schema_get_timesheet() -> JsonModel {
    JsonModel::Object(Seq::empty()
        .push(("type"@, JsonModel::Str("object"@)))
        .push(("properties"@, JsonModel::Object(Seq::empty()
            .push(("timesheet_id"@, spec_prop("integer"@, "The timesheet entry ID"@))))))
        .push(("required"@, JsonModel::Array(Seq::empty()
            .push(JsonModel::Str("timesheet_id"@))))))
}

fn build_schema_get_timesheet() -> (r: JsonValue)
    ensures
        model(r) == schema_get_timesheet(),
{
    let mut o1: Vec<JsonEntry> = Vec::new();
    push_member(&mut o1, "type", json_str("object"));
    let mut o2: Vec<JsonEntry> = Vec::new();
    push_member(&mut o2, "timesheet_id", prop("integer", "The timesheet entry ID"));
    push_member(&mut o1, "properties", JsonValue::Object(o2));
    let mut a3: Vec<JsonValue> = Vec::new();
    push_item(&mut a3, json_str("timesheet_id"));
    push_member(&mut o1, "required", JsonValue::Array(a3));
    JsonValue::Object(o1)
}

/// The input schema of `create_timesheet`.
pub open spec fn schema_create_timesheet() -> JsonModel {
    JsonModel::Object(Seq::empty()
        .push(("type"@, JsonModel::Str("object"@)))
        .push(("properties"@, JsonModel::Object(Seq::empty()
            .push(("fields"@, spec_prop("object"@, "e.g. { \"agent_id\": 5, \"date\": \"2026-07-07T00:00:00Z\", \"workdayid\": 1, \"work_hours\": 1.5 }"@))))))
        .push(("required"@, JsonModel::Array(Seq::empty()
            .push(JsonModel::Str("fields"@))))))
}

fn build_schema_create_timesheet() -> (r: JsonValue)
    ensures
        model(r) == schema_create_timesheet(),
{
    let mut o1: Vec<JsonEntry> = Vec::new();
    push_member(&mut o1, "type", json_str("object"));
    let mut o2: Vec<JsonEntry> = Vec::new();
    push_member(&mut o2, "fields", prop("object", "e.g. { \"agent_id\": 5, \"date\": \"2026-07-07T00:00:00Z\", \"workdayid\": 1, \"work_hours\": 1.5 }"));
    push_member(&mut o1, "properties", JsonValue::Object(o2));
    let mut a3: Vec<JsonValue> = Vec::new();
    push_item(&mut a3, json_str("fields"));
    push_member(&mut o1, "required", JsonValue::Array(a3));
    JsonValue::Object(o1)
}

/// The input schema of `get_invoice`.
pub open spec fn schema_get_invoice() -> JsonModel {
    JsonModel::Object(Seq::empty()
        .push(("type"@, JsonModel::Str("object"@)))
        .push(("properties"@, JsonModel::Object(Seq::empty()
            .push(("invoice_id"@, spec_prop("integer"@, "The invoice ID"@))))))
        .push(("required"@, JsonModel::Array(Seq::empty()
            .push(JsonModel::Str("invoice_id"@))))))
}

fn build_schema_get_invoice() -> (r: JsonValue)
    ensures
        model(r) == schema_get_invoice(),
{
    let mut o1: Vec<JsonEntry> = Vec::new();
    push_member(&mut o1, "type", json_str("object"));
    let mut o2: Vec<JsonEntry> = Vec::new();
    push_member(&mut o2, "invoice_id", prop("integer", "The invoice ID"));
    push_member(&mut o1, "properties", JsonValue::Object(o2));
    let mut a3: Vec<JsonValue> = Vec::new();
    push_item(&mut a3, json_str("invoice_id"));
    push_member(&mut o1, "required", JsonValue::Array(a3));
    JsonValue::Object(o1)
}

/// The input schema of `list_invoice_lines`.
pub open spec fn schema_list_invoice_lines() -> JsonModel {
    JsonModel::Object(Seq::empty()
        .push(("type"@, JsonModel::Str("object"@)))
        .push(("properties"@, JsonModel::Object(Seq::empty()
            .push(("invoice_id"@, spec_prop("integer"@, "Filter to a specific invoice (optional)"@)))))))
}

fn build_schema_list_invoice_lines() -> (r: JsonValue)
    ensures
        model(r) == schema_list_invoice_lines(),
{
    let mut o1: Vec<JsonEntry> = Vec::new();
    push_member(&mut o1, "type", json_str("object"));
    let mut o2: Vec<JsonEntry> = Vec::new();
    push_member(&mut o2, "invoice_id", prop("integer", "Filter to a specific invoice (optional)"));
    push_member(&mut o1, "properties", JsonValue::Object(o2));
    JsonValue::Object(o1)
}

/// The input schema of `create_asset_group`.
pub open spec fn schema_create_asset_group() -> JsonModel {
    JsonModel::Object(Seq::empty()
        .push(("type"@, JsonModel::Str("object"@)))
        .push(("properties"@, JsonModel::Object(Seq::empty()
            .push(("fields"@, spec_prop("object"@, "Group fields, e.g. { \"name\": \"Server Room A\", \"showasequip\": true }. Set showasequip and/or showasitem true depending on whether the group is for assets, items, or both."@))))))
        .push(("required"@, JsonModel::Array(Seq::empty()
            .push(JsonModel::Str("fields"@))))))
}

fn build_schema_create_asset_group() -> (r: JsonValue)
    ensures
        model(r) == schema_create_asset_group(),
{
    let mut o1: Vec<JsonEntry> = Vec::new();
    push_member(&mut o1, "type", json_str("object"));
    let mut o2: Vec<JsonEntry> = Vec::new();
    push_member(&mut o2, "fields", prop("object", "Group fields, e.g. { \"name\": \"Server Room A\", \"showasequip\": true }. Set showasequip and/or showasitem true depending on whether the group is for assets, items, or both."));
    push_member(&mut o1, "properties", JsonValue::Object(o2));
    let mut a3: Vec<JsonValue> = Vec::new();
    push_item(&mut a3, json_str("fields"));
    push_member(&mut o1, "required", JsonValue::Array(a3));
    JsonValue::Object(o1)
}

/// The input schema of `update_asset_group`.
pub open spec fn schema_update_asset_group() -> JsonModel {
    JsonModel::Object(Seq::empty()
        .push(("type"@, JsonModel::Str("object"@)))
        .push(("properties"@, JsonModel::Object(Seq::empty()
            .push(("group_id"@, spec_prop("integer"@, "The asset group ID"@)))
            .push(("fields"@, spec_prop("object"@, "Fields to update"@))))))
        .push(("required"@, JsonModel::Array(Seq::empty()
            .push(JsonModel::Str("group_id"@))
            .push(JsonModel::Str("fields"@))))))
}

fn build_schema_update_asset_group() -> (r: JsonValue)
    ensures
        model(r) == schema_update_asset_group(),
{
    let mut o1: Vec<JsonEntry> = Vec::new();
    push_member(&mut o1, "type", json_str("object"));
    let mut o2: Vec<JsonEntry> = Vec::new();
    push_member(&mut o2, "group_id", prop("integer", "The asset group ID"));
    push_member(&mut o2, "fields", prop("object", "Fields to update"));
    push_member(&mut o1, "properties", JsonValue::Object(o2));
    let mut a3: Vec<JsonValue> = Vec::new();
    push_item(&mut a3, json_str("group_id"));
    push_item(&mut a3, json_str("fields"));
    push_member(&mut o1, "required", JsonValue::Array(a3));
    JsonValue::Object(o1)
}

/// The input schema of `delete_asset_group`.
pub open spec fn schema_delete_asset_group() -> JsonModel {
    JsonModel::Object(Seq::empty()
        .push(("type"@, JsonModel::Str("object"@)))
        .push(("properties"@, JsonModel::Object(Seq::empty()
            .push(("group_id"@, spec_prop("integer"@, "The asset group ID"@))))))
        .push(("required"@, JsonModel::Array(Seq::empty()
            .push(JsonModel::Str("group_id"@))))))
}

fn build_schema_delete_asset_group() -> (r: JsonValue)
    ensures
        model(r) == schema_delete_asset_group(),
{
    let mut o1: Vec<JsonEntry> = Vec::new();
    push_member(&mut o1, "type", json_str("object"));
    let mut o2: Vec<JsonEntry> = Vec::new();
    push_member(&mut o2, "group_id", prop("integer", "The asset group ID"));
    push_member(&mut o1, "properties", JsonValue::Object(o2));
    let mut a3: Vec<JsonValue> = Vec::new();
    push_item(&mut a3, json_str("group_id"));
    push_member(&mut o1, "required", JsonValue::Array(a3));
    JsonValue::Object(o1)
}

/// The input schema of `list_attachments`.
pub open spec fn schema_list_attachments() -> JsonModel {
    JsonModel::Object(Seq::empty()
        .push(("type"@, JsonModel::Str("object"@)))
        .push(("properties"@, JsonModel::Object(Seq::empty()
            .push(("ticket_id"@, spec_prop("integer"@, "Filter by ticket ID (optional)"@)))))))
}

fn build_schema_list_attachments() -> (r: JsonValue)
    ensures
        model(r) == schema_list_attachments(),
{
    let mut o1: Vec<JsonEntry> = Vec::new();
    push_member(&mut o1, "type", json_str("object"));
    let mut o2: Vec<JsonEntry> = Vec::new();
    push_member(&mut o2, "ticket_id", prop("integer", "Filter by ticket ID (optional)"));
    push_member(&mut o1, "properties", JsonValue::Object(o2));
    JsonValue::Object(o1)
}

/// The input schema of `get_attachment`.
pub open spec fn schema_get_attachment() -> JsonModel {
    JsonModel::Object(Seq::empty()
        .push(("type"@, JsonModel::Str("object"@)))
        .push(("properties"@, JsonModel::Object(Seq::empty()
            .push(("attachment_id"@, spec_prop("integer"@, "The attachment ID"@))))))
        .push(("required"@, JsonModel::Array(Seq::empty()
            .push(JsonModel::Str("attachment_id"@))))))
}

fn build_schema_get_attachment() -> (r: JsonValue)
    ensures
        model(r) == schema_get_attachment(),
{
    let mut o1: Vec<JsonEntry> = Vec::new();
    push_member(&mut o1, "type", json_str("object"));
    let mut o2: Vec<JsonEntry> = Vec::new();
    push_member(&mut o2, "attachment_id", prop("integer", "The attachment ID"));
    push_member(&mut o1, "properties", JsonValue::Object(o2));
    let mut a3: Vec<JsonValue> = Vec::new();
    push_item(&mut a3, json_str("attachment_id"));
    push_member(&mut o1, "required", JsonValue::Array(a3));
    JsonValue::Object(o1)
}

/// The input schema of `delete_attachment`.
pub open spec fn schema_delete_attachment() -> JsonModel {
    JsonModel::Object(Seq::empty()
        .push(("type"@, JsonModel::Str("object"@)))
        .push(("properties"@, JsonModel::Object(Seq::empty()
            .push(("attachment_id"@, spec_prop("integer"@, "The attachment ID"@))))))
        .push(("required"@, JsonModel::Array(Seq::empty()
            .push(JsonModel::Str("attachment_id"@))))))
}

fn build_schema_delete_attachment() -> (r: JsonValue)
    ensures
        model(r) == schema_delete_attachment(),
{
    let mut o1: Vec<JsonEntry> = Vec::new();
    push_member(&mut o1, "type", json_str("object"));
    let mut o2: Vec<JsonEntry> = Vec::new();
    push_member(&mut o2, "attachment_id", prop("integer", "The attachment ID"));
    push_member(&mut o1, "properties", JsonValue::Object(o2));
    let mut a3: Vec<JsonValue> = Vec::new();
    push_item(&mut a3, json_str("attachment_id"));
    push_member(&mut o1, "required", JsonValue::Array(a3));
    JsonValue::Object(o1)
}

/// The input schema of `update_client`.
pub open spec fn schema_update_client() -> JsonModel {
    JsonModel::Object(Seq::empty()
        .push(("type"@, JsonModel::Str("object"@)))
        .push(("properties"@, JsonModel::Object(Seq::empty()
            .push(("client_id"@, spec_prop("integer"@, "The client ID"@)))
            .push(("fields"@, spec_prop("object"@, "Fields to update, e.g. { \"name\": \"Acme Corp\" }"@))))))
        .push(("required"@, JsonModel::Array(Seq::empty()
            .push(JsonModel::Str("client_id"@))
            .push(JsonModel::Str("fields"@))))))
}

fn build_schema_update_client() -> (r: JsonValue)
    ensures
        model(r) == schema_update_client(),
{
    let mut o1: Vec<JsonEntry> = Vec::new();
    push_member(&mut o1, "type", json_str("object"));
    let mut o2: Vec<JsonEntry> = Vec::new();
    push_member(&mut o2, "client_id", prop("integer", "The client ID"));
    push_member(&mut o2, "fields", prop("object", "Fields to update, e.g. { \"name\": \"Acme Corp\" }"));
    push_member(&mut o1, "properties", JsonValue::Object(o2));
    let mut a3: Vec<JsonValue> = Vec::new();
    push_item(&mut a3, json_str("client_id"));
    push_item(&mut a3, json_str("fields"));
    push_member(&mut o1, "required", JsonValue::Array(a3));
    JsonValue::Object(o1)
}

/// The input schema of `list_asset_types`.
pub open spec fn schema_list_asset_types() -> JsonModel {
    JsonModel::Object(Seq::empty()
        .push(("type"@, JsonModel::Str("object"@)))
        .push(("properties"@, JsonModel::Object(Seq::empty()))))
}

fn build_schema_list_asset_types() -> (r: JsonValue)
    ensures
        model(r) == schema_list_asset_types(),
{
    let mut o1: Vec<JsonEntry> = Vec::new();
    push_member(&mut o1, "type", json_str("object"));
    let mut o2: Vec<JsonEntry> = Vec::new();
    push_member(&mut o1, "properties", JsonValue::Object(o2));
    JsonValue::Object(o1)
}

/// The input schema of `search_agents`.
pub open spec fn schema_search_agents() -> JsonModel {
    JsonModel::Object(Seq::empty()
        .push(("type"@, JsonModel::Str("object"@)))
        .push(("properties"@, JsonModel::Object(Seq::empty()
            .push(("query"@, spec_prop("string"@, "Search query string"@)))
            .push(("page_size"@, spec_prop_default("integer"@, "Max results (default 50)"@, JsonModel::Int(50)))))))
        .push(("required"@, JsonModel::Array(Seq::empty()
            .push(JsonModel::Str("query"@))))))
}

fn build_schema_search_agents() -> (r: JsonValue)
    ensures
        model(r) == schema_search_agents(),
{
    let mut o1: Vec<JsonEntry> = Vec::new();
    push_member(&mut o1, "type", json_str("object"));
    let mut o2: Vec<JsonEntry> = Vec::new();
    push_member(&mut o2, "query", prop("string", "Search query string"));
    push_member(&mut o2, "page_size", prop_default("integer", "Max results (default 50)", JsonValue::Int(50)));
    push_member(&mut o1, "properties", JsonValue::Object(o2));
    let mut a3: Vec<JsonValue> = Vec::new();
    push_item(&mut a3, json_str("query"));
    push_member(&mut o1, "required", JsonValue::Array(a3));
    JsonValue::Object(o1)
}

/// The input schema of `list_projects`.
pub open spec fn schema_list_projects() -> JsonModel {
    JsonModel::Object(Seq::empty()
        .push(("type"@, JsonModel::Str("object"@)))
        .push(("properties"@, JsonModel::Object(Seq::empty()
            .push(("page"@, spec_prop_default("integer"@, "Page number (default 1)"@, JsonModel::Int(1))))
            .push(("page_size"@, spec_prop_default("integer"@, "Results per page (1-100, default 50)"@, JsonModel::Int(50))))
            .push(("client_id"@, spec_prop("integer"@, "Filter by client ID (optional)"@)))))))
}

fn build_schema_list_projects() -> (r: JsonValue)
    ensures
        model(r) == schema_list_projects(),
{
    let mut o1: Vec<JsonEntry> = Vec::new();
    push_member(&mut o1, "type", json_str("object"));
    let mut o2: Vec<JsonEntry> = Vec::new();
    push_member(&mut o2, "page", prop_default("integer", "Page number (default 1)", JsonValue::Int(1)));
    push_member(&mut o2, "page_size", prop_default("integer", "Results per page (1-100, default 50)", JsonValue::Int(50)));
    push_member(&mut o2, "client_id", prop("integer", "Filter by client ID (optional)"));
    push_member(&mut o1, "properties", JsonValue::Object(o2));
    JsonValue::Object(o1)
}

/// The input schema of `get_project`.
pub open spec fn schema_get_project() -> JsonModel {
    JsonModel::Object(Seq::empty()
        .push(("type"@, JsonModel::Str("object"@)))
        .push(("properties"@, JsonModel::Object(Seq::empty()
            .push(("project_id"@, spec_prop("integer"@, "The project (ticket) ID"@))))))
        .push(("required"@, JsonModel::Array(Seq::empty()
            .push(JsonModel::Str("project_id"@))))))
}

fn build_schema_get_project() -> (r: JsonValue)
    ensures
        model(r) == schema_get_project(),
{
    let mut o1: Vec<JsonEntry> = Vec::new();
    push_member(&mut o1, "type", json_str("object"));
    let mut o2: Vec<JsonEntry> = Vec::new();
    push_member(&mut o2, "project_id", prop("integer", "The project (ticket) ID"));
    push_member(&mut o1, "properties", JsonValue::Object(o2));
    let mut a3: Vec<JsonValue> = Vec::new();
    push_item(&mut a3, json_str("project_id"));
    push_member(&mut o1, "required", JsonValue::Array(a3));
    JsonValue::Object(o1)
}

/// The input schema of `create_project`.
pub open spec fn schema_create_project() -> JsonModel {
    JsonModel::Object(Seq::empty()
        .push(("type"@, JsonModel::Str("object"@)))
        .push(("properties"@, JsonModel::Object(Seq::empty()
            .push(("fields"@, spec_prop("object"@, "Ticket fields, e.g. { \"summary\": \"Office Migration\", \"client_id\": 42, \"tickettype_id\": 20 }"@))))))
        .push(("required"@, JsonModel::Array(Seq::empty()
            .push(JsonModel::Str("fields"@))))))
}

fn build_schema_create_project() -> (r: JsonValue)
    ensures
        model(r) == schema_create_project(),
{
    let mut o1: Vec<JsonEntry> = Vec::new();
    push_member(&mut o1, "type", json_str("object"));
    let mut o2: Vec<JsonEntry> = Vec::new();
    push_member(&mut o2, "fields", prop("object", "Ticket fields, e.g. { \"summary\": \"Office Migration\", \"client_id\": 42, \"tickettype_id\": 20 }"));
    push_member(&mut o1, "properties", JsonValue::Object(o2));
    let mut a3: Vec<JsonValue> = Vec::new();
    push_item(&mut a3, json_str("fields"));
    push_member(&mut o1, "required", JsonValue::Array(a3));
    JsonValue::Object(o1)
}

/// The input schema of `update_project`.
pub open spec fn schema_update_project() -> JsonModel {
    JsonModel::Object(Seq::empty()
        .push(("type"@, JsonModel::Str("object"@)))
        .push(("properties"@, JsonModel::Object(Seq::empty()
            .push(("project_id"@, spec_prop("integer"@, "The project (ticket) ID"@)))
            .push(("fields"@, spec_prop("object"@, "Fields to update"@))))))
        .push(("required"@, JsonModel::Array(Seq::empty()
            .push(JsonModel::Str("project_id"@))
            .push(JsonModel::Str("fields"@))))))
}

fn build_schema_update_project() -> (r: JsonValue)
    ensures
        model(r) == schema_update_project(),
{
    let mut o1: Vec<JsonEntry> = Vec::new();
    push_member(&mut o1, "type", json_str("object"));
    let mut o2: Vec<JsonEntry> = Vec::new();
    push_member(&mut o2, "project_id", prop("integer", "The project (ticket) ID"));
    push_member(&mut o2, "fields", prop("object", "Fields to update"));
    push_member(&mut o1, "properties", JsonValue::Object(o2));
    let mut a3: Vec<JsonValue> = Vec::new();
    push_item(&mut a3, json_str("project_id"));
    push_item(&mut a3, json_str("fields"));
    push_member(&mut o1, "required", JsonValue::Array(a3));
    JsonValue::Object(o1)
}

/// The input schema of `list_project_tasks`.
pub open spec fn schema_list_project_tasks() -> JsonModel {
    JsonModel::Object(Seq::empty()
        .push(("type"@, JsonModel::Str("object"@)))
        .push(("properties"@, JsonModel::Object(Seq::empty()
            .push(("project_id"@, spec_prop("integer"@, "The project (ticket) ID"@)))
            .push(("page"@, spec_prop_default("integer"@, "Page number (default 1)"@, JsonModel::Int(1))))
            .push(("page_size"@, spec_prop_default("integer"@, "Results per page (1-100, default 50)"@, JsonModel::Int(50)))))))
        .push(("required"@, JsonModel::Array(Seq::empty()
            .push(JsonModel::Str("project_id"@))))))
}

fn build_schema_list_project_tasks() -> (r: JsonValue)
    ensures
        model(r) == schema_list_project_tasks(),
{
    let mut o1: Vec<JsonEntry> = Vec::new();
    push_member(&mut o1, "type", json_str("object"));
    let mut o2: Vec<JsonEntry> = Vec::new();
    push_member(&mut o2, "project_id", prop("integer", "The project (ticket) ID"));
    push_member(&mut o2, "page", prop_default("integer", "Page number (default 1)", JsonValue::Int(1)));
    push_member(&mut o2, "page_size", prop_default("integer", "Results per page (1-100, default 50)", JsonValue::Int(50)));
    push_member(&mut o1, "properties", JsonValue::Object(o2));
    let mut a3: Vec<JsonValue> = Vec::new();
    push_item(&mut a3, json_str("project_id"));
    push_member(&mut o1, "required", JsonValue::Array(a3));
    JsonValue::Object(o1)
}

/// The input schema of `create_report_pdf`.
pub open spec fn schema_create_report_pdf() -> JsonModel {
    JsonModel::Object(Seq::empty()
        .push(("type"@, JsonModel::Str("object"@)))
        .push(("properties"@, JsonModel::Object(Seq::empty()
            .push(("report_id"@, spec_prop("integer"@, "The report ID"@)))
            .push(("filters"@, JsonModel::Object(Seq::empty()
                .push(("type"@, JsonModel::Str("array"@)))
                .push(("description"@, JsonModel::Str("Optional filter overrides, same shape as run_report's filters"@)))
                .push(("items"@, JsonModel::Object(Seq::empty()
                    .push(("type"@, JsonModel::Str("object"@))))))))))))
        .push(("required"@, JsonModel::Array(Seq::empty()
            .push(JsonModel::Str("report_id"@))))))
}

fn build_schema_create_report_pdf() -> (r: JsonValue)
    ensures
        model(r) == schema_create_report_pdf(),
{
    let mut o1: Vec<JsonEntry> = Vec::new();
    push_member(&mut o1, "type", json_str("object"));
    let mut o2: Vec<JsonEntry> = Vec::new();
    push_member(&mut o2, "report_id", prop("integer", "The report ID"));
    let mut o3: Vec<JsonEntry> = Vec::new();
    push_member(&mut o3, "type", json_str("array"));
    push_member(&mut o3, "description", json_str("Optional filter overrides, same shape as run_report's filters"));
    let mut o4: Vec<JsonEntry> = Vec::new();
    push_member(&mut o4, "type", json_str("object"));
    push_member(&mut o3, "items", JsonValue::Object(o4));
    push_member(&mut o2, "filters", JsonValue::Object(o3));
    push_member(&mut o1, "properties", JsonValue::Object(o2));
    let mut a5: Vec<JsonValue> = Vec::new();
    push_item(&mut a5, json_str("report_id"));
    push_member(&mut o1, "required", JsonValue::Array(a5));
    JsonValue::Object(o1)
}

/// The input schema of `list_opportunities`.
pub open spec fn schema_list_opportunities() -> JsonModel {
    JsonModel::Object(Seq::empty()
        .push(("type"@, JsonModel::Str("object"@)))
        .push(("properties"@, JsonModel::Object(Seq::empty()
            .push(("page"@, spec_prop_default("integer"@, "Page number (default 1)"@, JsonModel::Int(1))))
            .push(("page_size"@, spec_prop_default("integer"@, "Results per page (1-200, default 50)"@, JsonModel::Int(50))))
            .push(("client_id"@, spec_prop("integer"@, "Filter by client ID (optional)"@)))))))
}

fn build_schema_list_opportunities() -> (r: JsonValue)
    ensures
        model(r) == schema_list_opportunities(),
{
    let mut o1: Vec<JsonEntry> = Vec::new();
    push_member(&mut o1, "type", json_str("object"));
    let mut o2: Vec<JsonEntry> = Vec::new();
    push_member(&mut o2, "page", prop_default("integer", "Page number (default 1)", JsonValue::Int(1)));
    push_member(&mut o2, "page_size", prop_default("integer", "Results per page (1-200, default 50)", JsonValue::Int(50)));
    push_member(&mut o2, "client_id", prop("integer", "Filter by client ID (optional)"));
    push_member(&mut o1, "properties", JsonValue::Object(o2));
    JsonValue::Object(o1)
}

/// The input schema of `get_opportunity`.
pub open spec fn schema_get_opportunity() -> JsonModel {
    JsonModel::Object(Seq::empty()
        .push(("type"@, JsonModel::Str("object"@)))
        .push(("properties"@, JsonModel::Object(Seq::empty()
            .push(("opportunity_id"@, spec_prop("integer"@, "The opportunity ID"@))))))
        .push(("required"@, JsonModel::Array(Seq::empty()
            .push(JsonModel::Str("opportunity_id"@))))))
}

fn build_schema_get_opportunity() -> (r: JsonValue)
    ensures
        model(r) == schema_get_opportunity(),
{
    let mut o1: Vec<JsonEntry> = Vec::new();
    push_member(&mut o1, "type", json_str("object"));
    let mut o2: Vec<JsonEntry> = Vec::new();
    push_member(&mut o2, "opportunity_id", prop("integer", "The opportunity ID"));
    push_member(&mut o1, "properties", JsonValue::Object(o2));
    let mut a3: Vec<JsonValue> = Vec::new();
    push_item(&mut a3, json_str("opportunity_id"));
    push_member(&mut o1, "required", JsonValue::Array(a3));
    JsonValue::Object(o1)
}

/// The input schema of `create_opportunity`.
pub open spec fn schema_create_opportunity() -> JsonModel {
    JsonModel::Object(Seq::empty()
        .push(("type"@, JsonModel::Str("object"@)))
        .push(("properties"@, JsonModel::Object(Seq::empty()
            .push(("fields"@, spec_prop("object"@, "Opportunity fields, e.g. { \"summary\": \"Managed Services Contract\", \"client_id\": 1, \"oppvalueadjusted\": 24000, \"targetdate\": \"2026-12-31T00:00:00Z\" }. targetdate is required."@))))))
        .push(("required"@, JsonModel::Array(Seq::empty()
            .push(JsonModel::Str("fields"@))))))
}

fn build_schema_create_opportunity() -> (r: JsonValue)
    ensures
        model(r) == schema_create_opportunity(),
{
    let mut o1: Vec<JsonEntry> = Vec::new();
    push_member(&mut o1, "type", json_str("object"));
    let mut o2: Vec<JsonEntry> = Vec::new();
    push_member(&mut o2, "fields", prop("object", "Opportunity fields, e.g. { \"summary\": \"Managed Services Contract\", \"client_id\": 1, \"oppvalueadjusted\": 24000, \"targetdate\": \"2026-12-31T00:00:00Z\" }. targetdate is required."));
    push_member(&mut o1, "properties", JsonValue::Object(o2));
    let mut a3: Vec<JsonValue> = Vec::new();
    push_item(&mut a3, json_str("fields"));
    push_member(&mut o1, "required", JsonValue::Array(a3));
    JsonValue::Object(o1)
}

/// The input schema of `update_opportunity`.
pub open spec fn schema_update_opportunity() -> JsonModel {
    JsonModel::Object(Seq::empty()
        .push(("type"@, JsonModel::Str("object"@)))
        .push(("properties"@, JsonModel::Object(Seq::empty()
            .push(("opportunity_id"@, spec_prop("integer"@, "The opportunity ID"@)))
            .push(("fields"@, spec_prop("object"@, "Fields to update"@))))))
        .push(("required"@, JsonModel::Array(Seq::empty()
            .push(JsonModel::Str("opportunity_id"@))
            .push(JsonModel::Str("fields"@))))))
}

fn build_schema_update_opportunity() -> (r: JsonValue)
    ensures
        model(r) == schema_update_opportunity(),
{
    let mut o1: Vec<JsonEntry> = Vec::new();
    push_member(&mut o1, "type", json_str("object"));
    let mut o2: Vec<JsonEntry> = Vec::new();
    push_member(&mut o2, "opportunity_id", prop("integer", "The opportunity ID"));
    push_member(&mut o2, "fields", prop("object", "Fields to update"));
    push_member(&mut o1, "properties", JsonValue::Object(o2));
    let mut a3: Vec<JsonValue> = Vec::new();
    push_item(&mut a3, json_str("opportunity_id"));
    push_item(&mut a3, json_str("fields"));
    push_member(&mut o1, "required", JsonValue::Array(a3));
    JsonValue::Object(o1)
}

/// The input schema of `list_crm_notes`.
pub open spec fn schema_list_crm_notes() -> JsonModel {
    JsonModel::Object(Seq::empty()
        .push(("type"@, JsonModel::Str("object"@)))
        .push(("properties"@, JsonModel::Object(Seq::empty()
            .push(("client_id"@, spec_prop("integer"@, "Filter by client ID (optional)"@)))
            .push(("supplier_id"@, spec_prop("integer"@, "Filter by supplier ID (optional)"@)))))))
}

fn build_schema_list_crm_notes() -> (r: JsonValue)
    ensures
        model(r) == schema_list_crm_notes(),
{
    let mut o1: Vec<JsonEntry> = Vec::new();
    push_member(&mut o1, "type", json_str("object"));
    let mut o2: Vec<JsonEntry> = Vec::new();
    push_member(&mut o2, "client_id", prop("integer", "Filter by client ID (optional)"));
    push_member(&mut o2, "supplier_id", prop("integer", "Filter by supplier ID (optional)"));
    push_member(&mut o1, "properties", JsonValue::Object(o2));
    JsonValue::Object(o1)
}

/// The input schema of `create_crm_note`.
pub open spec fn schema_create_crm_note() -> JsonModel {
    JsonModel::Object(Seq::empty()
        .push(("type"@, JsonModel::Str("object"@)))
        .push(("properties"@, JsonModel::Object(Seq::empty()
            .push(("fields"@, spec_prop("object"@, "Note fields, e.g. { \"client_id\": 1, \"note\": \"Discussed renewal terms\" }"@))))))
        .push(("required"@, JsonModel::Array(Seq::empty()
            .push(JsonModel::Str("fields"@))))))
}

fn build_schema_create_crm_note() -> (r: JsonValue)
    ensures
        model(r) == schema_create_crm_note(),
{
    let mut o1: Vec<JsonEntry> = Vec::new();
    push_member(&mut o1, "type", json_str("object"));
    let mut o2: Vec<JsonEntry> = Vec::new();
    push_member(&mut o2, "fields", prop("object", "Note fields, e.g. { \"client_id\": 1, \"note\": \"Discussed renewal terms\" }"));
    push_member(&mut o1, "properties", JsonValue::Object(o2));
    let mut a3: Vec<JsonValue> = Vec::new();
    push_item(&mut a3, json_str("fields"));
    push_member(&mut o1, "required", JsonValue::Array(a3));
    JsonValue::Object(o1)
}

/// The input schema of `list_contact_groups`.
pub open spec fn schema_list_contact_groups() -> JsonModel {
    JsonModel::Object(Seq::empty()
        .push(("type"@, JsonModel::Str("object"@)))
        .push(("properties"@, JsonModel::Object(Seq::empty()))))
}

fn build_schema_list_contact_groups() -> (r: JsonValue)
    ensures
        model(r) == schema_list_contact_groups(),
{
    let mut o1: Vec<JsonEntry> = Vec::new();
    push_member(&mut o1, "type", json_str("object"));
    let mut o2: Vec<JsonEntry> = Vec::new();
    push_member(&mut o1, "properties", JsonValue::Object(o2));
    JsonValue::Object(o1)
}

/// The input schema of `manage_contact_group_members`.
pub open spec fn schema_manage_contact_group_members() -> JsonModel {
    JsonModel::Object(Seq::empty()
        .push(("type"@, JsonModel::Str("object"@)))
        .push(("properties"@, JsonModel::Object(Seq::empty()
            .push(("group_id"@, spec_prop("integer"@, "The contact group ID"@)))
            .push(("user_id"@, spec_prop("integer"@, "The user ID to add or remove"@)))
            .push(("add"@, spec_prop_default("boolean"@, "true to add, false to remove (default true)"@, JsonModel::Bool(true)))))))
        .push(("required"@, JsonModel::Array(Seq::empty()
            .push(JsonModel::Str("group_id"@))
            .push(JsonModel::Str("user_id"@))))))
}

fn build_schema_manage_contact_group_members() -> (r: JsonValue)
    ensures
        model(r) == schema_manage_contact_group_members(),
{
    let mut o1: Vec<JsonEntry> = Vec::new();
    push_member(&mut o1, "type", json_str("object"));
    let mut o2: Vec<JsonEntry> = Vec::new();
    push_member(&mut o2, "group_id", prop("integer", "The contact group ID"));
    push_member(&mut o2, "user_id", prop("integer", "The user ID to add or remove"));
    push_member(&mut o2, "add", prop_default("boolean", "true to add, false to remove (default true)", JsonValue::Bool(true)));
    push_member(&mut o1, "properties", JsonValue::Object(o2));
    let mut a3: Vec<JsonValue> = Vec::new();
    push_item(&mut a3, json_str("group_id"));
    push_item(&mut a3, json_str("user_id"));
    push_member(&mut o1, "required", JsonValue::Array(a3));
    JsonValue::Object(o1)
}

/// The input schema of `list_ticket_approvals`.
pub open spec fn schema_list_ticket_approvals() -> JsonModel {
    JsonModel::Object(Seq::empty()
        .push(("type"@, JsonModel::Str("object"@)))
        .push(("properties"@, JsonModel::Object(Seq::empty()
            .push(("mine"@, spec_prop_default("boolean"@, "Only approvals awaiting your action (default true)"@, JsonModel::Bool(true))))))))
}

fn build_schema_list_ticket_approvals() -> (r: JsonValue)
    ensures
        model(r) == schema_list_ticket_approvals(),
{
    let mut o1: Vec<JsonEntry> = Vec::new();
    push_member(&mut o1, "type", json_str("object"));
    let mut o2: Vec<JsonEntry> = Vec::new();
    push_member(&mut o2, "mine", prop_default("boolean", "Only approvals awaiting your action (default true)", JsonValue::Bool(true)));
    push_member(&mut o1, "properties", JsonValue::Object(o2));
    JsonValue::Object(o1)
}

/// The input schema of `process_approval`.
pub open spec fn schema_process_approval() -> JsonModel {
    JsonModel::Object(Seq::empty()
        .push(("type"@, JsonModel::Str("object"@)))
        .push(("properties"@, JsonModel::Object(Seq::empty()
            .push(("approval_ids"@, JsonModel::Object(Seq::empty()
                .push(("type"@, JsonModel::Str("array"@)))
                .push(("items"@, JsonModel::Object(Seq::empty()
                    .push(("type"@, JsonModel::Str("integer"@))))))
                .push(("description"@, JsonModel::Str("Approval IDs to process"@))))))
            .push(("approve"@, spec_prop("boolean"@, "true to approve, false to reject"@))))))
        .push(("required"@, JsonModel::Array(Seq::empty()
            .push(JsonModel::Str("approval_ids"@))
            .push(JsonModel::Str("approve"@))))))
}

fn build_schema_process_approval() -> (r: JsonValue)
    ensures
        model(r) == schema_process_approval(),
{
    let mut o1: Vec<JsonEntry> = Vec::new();
    push_member(&mut o1, "type", json_str("object"));
    let mut o2: Vec<JsonEntry> = Vec::new();
    let mut o3: Vec<JsonEntry> = Vec::new();
    push_member(&mut o3, "type", json_str("array"));
    let mut o4: Vec<JsonEntry> = Vec::new();
    push_member(&mut o4, "type", json_str("integer"));
    push_member(&mut o3, "items", JsonValue::Object(o4));
    push_member(&mut o3, "description", json_str("Approval IDs to process"));
    push_member(&mut o2, "approval_ids", JsonValue::Object(o3));
    push_member(&mut o2, "approve", prop("boolean", "true to approve, false to reject"));
    push_member(&mut o1, "properties", JsonValue::Object(o2));
    let mut a5: Vec<JsonValue> = Vec::new();
    push_item(&mut a5, json_str("approval_ids"));
    push_item(&mut a5, json_str("approve"));
    push_member(&mut o1, "required", JsonValue::Array(a5));
    JsonValue::Object(o1)
}

/// The input schema of `list_feedback`.
pub open spec fn schema_list_feedback() -> JsonModel {
    JsonModel::Object(Seq::empty()
        .push(("type"@, JsonModel::Str("object"@)))
        .push(("properties"@, JsonModel::Object(Seq::empty()
            .push(("client_id"@, spec_prop("integer"@, "Filter by client ID (optional)"@)))
            .push(("agent_id"@, spec_prop("integer"@, "Filter by agent ID (optional)"@)))))))
}

fn build_schema_list_feedback() -> (r: JsonValue)
    ensures
        model(r) == schema_list_feedback(),
{
    let mut o1: Vec<JsonEntry> = Vec::new();
    push_member(&mut o1, "type", json_str("object"));
    let mut o2: Vec<JsonEntry> = Vec::new();
    push_member(&mut o2, "client_id", prop("integer", "Filter by client ID (optional)"));
    push_member(&mut o2, "agent_id", prop("integer", "Filter by agent ID (optional)"));
    push_member(&mut o1, "properties", JsonValue::Object(o2));
    JsonValue::Object(o1)
}

/// The input schema of `list_custom_tables`.
pub open spec fn schema_list_custom_tables() -> JsonModel {
    JsonModel::Object(Seq::empty()
        .push(("type"@, JsonModel::Str("object"@)))
        .push(("properties"@, JsonModel::Object(Seq::empty()))))
}

fn build_schema_list_custom_tables() -> (r: JsonValue)
    ensures
        model(r) == schema_list_custom_tables(),
{
    let mut o1: Vec<JsonEntry> = Vec::new();
    push_member(&mut o1, "type", json_str("object"));
    let mut o2: Vec<JsonEntry> = Vec::new();
    push_member(&mut o1, "properties", JsonValue::Object(o2));
    JsonValue::Object(o1)
}

/// The input schema of `get_custom_table`.
pub open spec fn schema_get_custom_table() -> JsonModel {
    JsonModel::Object(Seq::empty()
        .push(("type"@, JsonModel::Str("object"@)))
        .push(("properties"@, JsonModel::Object(Seq::empty()
            .push(("table_id"@, spec_prop("integer"@, "The custom table ID"@))))))
        .push(("required"@, JsonModel::Array(Seq::empty()
            .push(JsonModel::Str("table_id"@))))))
}

fn build_schema_get_custom_table() -> (r: JsonValue)
    ensures
        model(r) == schema_get_custom_table(),
{
    let mut o1: Vec<JsonEntry> = Vec::new();
    push_member(&mut o1, "type", json_str("object"));
    let mut o2: Vec<JsonEntry> = Vec::new();
    push_member(&mut o2, "table_id", prop("integer", "The custom table ID"));
    push_member(&mut o1, "properties", JsonValue::Object(o2));
    let mut a3: Vec<JsonValue> = Vec::new();
    push_item(&mut a3, json_str("table_id"));
    push_member(&mut o1, "required", JsonValue::Array(a3));
    JsonValue::Object(o1)
}

/// The input schema of `create_custom_table`.
pub open spec fn schema_create_custom_table() -> JsonModel {
    JsonModel::Object(Seq::empty()
        .push(("type"@, JsonModel::Str("object"@)))
        .push(("properties"@, JsonModel::Object(Seq::empty()
            .push(("fields"@, spec_prop("object"@, "Table fields, e.g. { \"name\": \"VendorCertifications\" }. name must be alphanumeric only (no spaces/punctuation)."@))))))
        .push(("required"@, JsonModel::Array(Seq::empty()
            .push(JsonModel::Str("fields"@))))))
}

fn build_schema_create_custom_table() -> (r: JsonValue)
    ensures
        model(r) == schema_create_custom_table(),
{
    let mut o1: Vec<JsonEntry> = Vec::new();
    push_member(&mut o1, "type", json_str("object"));
    let mut o2: Vec<JsonEntry> = Vec::new();
    push_member(&mut o2, "fields", prop("object", "Table fields, e.g. { \"name\": \"VendorCertifications\" }. name must be alphanumeric only (no spaces/punctuation)."));
    push_member(&mut o1, "properties", JsonValue::Object(o2));
    let mut a3: Vec<JsonValue> = Vec::new();
    push_item(&mut a3, json_str("fields"));
    push_member(&mut o1, "required", JsonValue::Array(a3));
    JsonValue::Object(o1)
}

/// The input schema of `delete_custom_table`.
pub open spec fn schema_delete_custom_table() -> JsonModel {
    JsonModel::Object(Seq::empty()
        .push(("type"@, JsonModel::Str("object"@)))
        .push(("properties"@, JsonModel::Object(Seq::empty()
            .push(("table_id"@, spec_prop("integer"@, "The custom table ID"@))))))
        .push(("required"@, JsonModel::Array(Seq::empty()
            .push(JsonModel::Str("table_id"@))))))
}

fn build_schema_delete_custom_table() -> (r: JsonValue)
    ensures
        model(r) == schema_delete_custom_table(),
{
    let mut o1: Vec<JsonEntry> = Vec::new();
    push_member(&mut o1, "type", json_str("object"));
    let mut o2: Vec<JsonEntry> = Vec::new();
    push_member(&mut o2, "table_id", prop("integer", "The custom table ID"));
    push_member(&mut o1, "properties", JsonValue::Object(o2));
    let mut a3: Vec<JsonValue> = Vec::new();
    push_item(&mut a3, json_str("table_id"));
    push_member(&mut o1, "required", JsonValue::Array(a3));
    JsonValue::Object(o1)
}

/// The input schema of `list_ticket_types`.
pub open spec fn schema_list_ticket_types() -> JsonModel {
    JsonModel::Object(Seq::empty()
        .push(("type"@, JsonModel::Str("object"@)))
        .push(("properties"@, JsonModel::Object(Seq::empty()))))
}

fn build_schema_list_ticket_types() -> (r: JsonValue)
    ensures
        model(r) == schema_list_ticket_types(),
{
    let mut o1: Vec<JsonEntry> = Vec::new();
    push_member(&mut o1, "type", json_str("object"));
    let mut o2: Vec<JsonEntry> = Vec::new();
    push_member(&mut o1, "properties", JsonValue::Object(o2));
    JsonValue::Object(o1)
}

/// The input schema of `get_ticket_type_details`.
pub open spec fn schema_get_ticket_type_details() -> JsonModel {
    JsonModel::Object(Seq::empty()
        .push(("type"@, JsonModel::Str("object"@)))
        .push(("properties"@, JsonModel::Object(Seq::empty()
            .push(("tickettype_id"@, spec_prop("integer"@, "The ticket type ID (from list_ticket_types)"@))))))
        .push(("required"@, JsonModel::Array(Seq::empty()
            .push(JsonModel::Str("tickettype_id"@))))))
}

fn build_schema_get_ticket_type_details() -> (r: JsonValue)
    ensures
        model(r) == schema_get_ticket_type_details(),
{
    let mut o1: Vec<JsonEntry> = Vec::new();
    push_member(&mut o1, "type", json_str("object"));
    let mut o2: Vec<JsonEntry> = Vec::new();
    push_member(&mut o2, "tickettype_id", prop("integer", "The ticket type ID (from list_ticket_types)"));
    push_member(&mut o1, "properties", JsonValue::Object(o2));
    let mut a3: Vec<JsonValue> = Vec::new();
    push_item(&mut a3, json_str("tickettype_id"));
    push_member(&mut o1, "required", JsonValue::Array(a3));
    JsonValue::Object(o1)
}

/// The input schema of `list_ticket_type_fields`.
pub open spec fn schema_list_ticket_type_fields() -> JsonModel {
    JsonModel::Object(Seq::empty()
        .push(("type"@, JsonModel::Str("object"@)))
        .push(("properties"@, JsonModel::Object(Seq::empty()
            .push(("tickettype_id"@, spec_prop("integer"@, "The ticket type ID (from list_ticket_types)"@))))))
        .push(("required"@, JsonModel::Array(Seq::empty()
            .push(JsonModel::Str("tickettype_id"@))))))
}

fn build_schema_list_ticket_type_fields() -> (r: JsonValue)
    ensures
        model(r) == schema_list_ticket_type_fields(),
{
    let mut o1: Vec<JsonEntry> = Vec::new();
    push_member(&mut o1, "type", json_str("object"));
    let mut o2: Vec<JsonEntry> = Vec::new();
    push_member(&mut o2, "tickettype_id", prop("integer", "The ticket type ID (from list_ticket_types)"));
    push_member(&mut o1, "properties", JsonValue::Object(o2));
    let mut a3: Vec<JsonValue> = Vec::new();
    push_item(&mut a3, json_str("tickettype_id"));
    push_member(&mut o1, "required", JsonValue::Array(a3));
    JsonValue::Object(o1)
}

/// The input schema of `get_client`.
pub open spec fn schema_get_client() -> JsonModel {
    JsonModel::Object(Seq::empty()
        .push(("type"@, JsonModel::Str("object"@)))
        .push(("properties"@, JsonModel::Object(Seq::empty()
            .push(("client_id"@, spec_prop("integer"@, "The client ID"@))))))
        .push(("required"@, JsonModel::Array(Seq::empty()
            .push(JsonModel::Str("client_id"@))))))
}

fn build_schema_get_client() -> (r: JsonValue)
    ensures
        model(r) == schema_get_client(),
{
    let mut o1: Vec<JsonEntry> = Vec::new();
    push_member(&mut o1, "type", json_str("object"));
    let mut o2: Vec<JsonEntry> = Vec::new();
    push_member(&mut o2, "client_id", prop("integer", "The client ID"));
    push_member(&mut o1, "properties", JsonValue::Object(o2));
    let mut a3: Vec<JsonValue> = Vec::new();
    push_item(&mut a3, json_str("client_id"));
    push_member(&mut o1, "required", JsonValue::Array(a3));
    JsonValue::Object(o1)
}

/// The input schema of `list_clients`.
pub open spec fn schema_list_clients() -> JsonModel {
    JsonModel::Object(Seq::empty()
        .push(("type"@, JsonModel::Str("object"@)))
        .push(("properties"@, JsonModel::Object(Seq::empty()
            .push(("page"@, spec_prop_default("integer"@, "Page number (default 1)"@, JsonModel::Int(1))))
            .push(("page_size"@, spec_prop_default("integer"@, "Results per page (1-100, default 50)"@, JsonModel::Int(50))))
            .push(("search"@, spec_prop("string"@, "Keyword search across client name"@)))))))
}

fn build_schema_list_clients() -> (r: JsonValue)
    ensures
        model(r) == schema_list_clients(),
{
    let mut o1: Vec<JsonEntry> = Vec::new();
    push_member(&mut o1, "type", json_str("object"));
    let mut o2: Vec<JsonEntry> = Vec::new();
    push_member(&mut o2, "page", prop_default("integer", "Page number (default 1)", JsonValue::Int(1)));
    push_member(&mut o2, "page_size", prop_default("integer", "Results per page (1-100, default 50)", JsonValue::Int(50)));
    push_member(&mut o2, "search", prop("string", "Keyword search across client name"));
    push_member(&mut o1, "properties", JsonValue::Object(o2));
    JsonValue::Object(o1)
}

/// The input schema of `search_clients`.
pub open spec fn schema_search_clients() -> JsonModel {
    JsonModel::Object(Seq::empty()
        .push(("type"@, JsonModel::Str("object"@)))
        .push(("properties"@, JsonModel::Object(Seq::empty()
            .push(("query"@, spec_prop("string"@, "Search query"@)))
            .push(("page_size"@, spec_prop_default("integer"@, "Max results (default 20)"@, JsonModel::Int(20)))))))
        .push(("required"@, JsonModel::Array(Seq::empty()
            .push(JsonModel::Str("query"@))))))
}

fn build_schema_search_clients() -> (r: JsonValue)
    ensures
        model(r) == schema_search_clients(),
{
    let mut o1: Vec<JsonEntry> = Vec::new();
    push_member(&mut o1, "type", json_str("object"));
    let mut o2: Vec<JsonEntry> = Vec::new();
    push_member(&mut o2, "query", prop("string", "Search query"));
    push_member(&mut o2, "page_size", prop_default("integer", "Max results (default 20)", JsonValue::Int(20)));
    push_member(&mut o1, "properties", JsonValue::Object(o2));
    let mut a3: Vec<JsonValue> = Vec::new();
    push_item(&mut a3, json_str("query"));
    push_member(&mut o1, "required", JsonValue::Array(a3));
    JsonValue::Object(o1)
}

/// The input schema of `list_users`.
pub open spec fn schema_list_users() -> JsonModel {
    JsonModel::Object(Seq::empty()
        .push(("type"@, JsonModel::Str("object"@)))
        .push(("properties"@, JsonModel::Object(Seq::empty()
            .push(("page"@, spec_prop_default("integer"@, "Page number (default 1)"@, JsonModel::Int(1))))
            .push(("page_size"@, spec_prop_default("integer"@, "Results per page (1-100, default 50)"@, JsonModel::Int(50))))
            .push(("client_id"@, spec_prop("integer"@, "Filter by client ID"@)))
            .push(("search"@, spec_prop("string"@, "Keyword search across user name/email"@)))))))
}

fn build_schema_list_users() -> (r: JsonValue)
    ensures
        model(r) == schema_list_users(),
{
    let mut o1: Vec<JsonEntry> = Vec::new();
    push_member(&mut o1, "type", json_str("object"));
    let mut o2: Vec<JsonEntry> = Vec::new();
    push_member(&mut o2, "page", prop_default("integer", "Page number (default 1)", JsonValue::Int(1)));
    push_member(&mut o2, "page_size", prop_default("integer", "Results per page (1-100, default 50)", JsonValue::Int(50)));
    push_member(&mut o2, "client_id", prop("integer", "Filter by client ID"));
    push_member(&mut o2, "search", prop("string", "Keyword search across user name/email"));
    push_member(&mut o1, "properties", JsonValue::Object(o2));
    JsonValue::Object(o1)
}

/// The input schema of `get_user`.
pub open spec fn schema_get_user() -> JsonModel {
    JsonModel::Object(Seq::empty()
        .push(("type"@, JsonModel::Str("object"@)))
        .push(("properties"@, JsonModel::Object(Seq::empty()
            .push(("user_id"@, spec_prop("integer"@, "The user ID"@))))))
        .push(("required"@, JsonModel::Array(Seq::empty()
            .push(JsonModel::Str("user_id"@))))))
}

fn build_schema_get_user() -> (r: JsonValue)
    ensures
        model(r) == schema_get_user(),
{
    let mut o1: Vec<JsonEntry> = Vec::new();
    push_member(&mut o1, "type", json_str("object"));
    let mut o2: Vec<JsonEntry> = Vec::new();
    push_member(&mut o2, "user_id", prop("integer", "The user ID"));
    push_member(&mut o1, "properties", JsonValue::Object(o2));
    let mut a3: Vec<JsonValue> = Vec::new();
    push_item(&mut a3, json_str("user_id"));
    push_member(&mut o1, "required", JsonValue::Array(a3));
    JsonValue::Object(o1)
}

/// The input schema of `search_users`.
pub open spec fn schema_search_users() -> JsonModel {
    JsonModel::Object(Seq::empty()
        .push(("type"@, JsonModel::Str("object"@)))
        .push(("properties"@, JsonModel::Object(Seq::empty()
            .push(("query"@, spec_prop("string"@, "Search query"@)))
            .push(("page_size"@, spec_prop_default("integer"@, "Max results (default 20)"@, JsonModel::Int(20)))))))
        .push(("required"@, JsonModel::Array(Seq::empty()
            .push(JsonModel::Str("query"@))))))
}

fn build_schema_search_users() -> (r: JsonValue)
    ensures
        model(r) == schema_search_users(),
{
    let mut o1: Vec<JsonEntry> = Vec::new();
    push_member(&mut o1, "type", json_str("object"));
    let mut o2: Vec<JsonEntry> = Vec::new();
    push_member(&mut o2, "query", prop("string", "Search query"));
    push_member(&mut o2, "page_size", prop_default("integer", "Max results (default 20)", JsonValue::Int(20)));
    push_member(&mut o1, "properties", JsonValue::Object(o2));
    let mut a3: Vec<JsonValue> = Vec::new();
    push_item(&mut a3, json_str("query"));
    push_member(&mut o1, "required", JsonValue::Array(a3));
    JsonValue::Object(o1)
}

/// The input schema of `list_reports`.
pub open spec fn schema_list_reports() -> JsonModel {
    JsonModel::Object(Seq::empty()
        .push(("type"@, JsonModel::Str("object"@)))
        .push(("properties"@, JsonModel::Object(Seq::empty()
            .push(("page"@, spec_prop_default("integer"@, "Page number (default 1)"@, JsonModel::Int(1))))
            .push(("page_size"@, spec_prop_default("integer"@, "Results per page (1-100, default 50)"@, JsonModel::Int(50))))
            .push(("reportgroup_id"@, spec_prop_default("integer"@, "Category ID from list_report_categories (default 0 = All Reports). Ignored if search is set."@, JsonModel::Int(0))))
            .push(("search"@, spec_prop("string"@, "Keyword search on report name, across all categories"@)))))))
}

fn build_schema_list_reports() -> (r: JsonValue)
    ensures
        model(r) == schema_list_reports(),
{
    let mut o1: Vec<JsonEntry> = Vec::new();
    push_member(&mut o1, "type", json_str("object"));
    let mut o2: Vec<JsonEntry> = Vec::new();
    push_member(&mut o2, "page", prop_default("integer", "Page number (default 1)", JsonValue::Int(1)));
    push_member(&mut o2, "page_size", prop_default("integer", "Results per page (1-100, default 50)", JsonValue::Int(50)));
    push_member(&mut o2, "reportgroup_id", prop_default("integer", "Category ID from list_report_categories (default 0 = All Reports). Ignored if search is set.", JsonValue::Int(0)));
    push_member(&mut o2, "search", prop("string", "Keyword search on report name, across all categories"));
    push_member(&mut o1, "properties", JsonValue::Object(o2));
    JsonValue::Object(o1)
}

/// The input schema of `list_report_categories`.
pub open spec fn schema_list_report_categories() -> JsonModel {
    JsonModel::Object(Seq::empty()
        .push(("type"@, JsonModel::Str("object"@)))
        .push(("properties"@, JsonModel::Object(Seq::empty()))))
}

fn build_schema_list_report_categories() -> (r: JsonValue)
    ensures
        model(r) == schema_list_report_categories(),
{
    let mut o1: Vec<JsonEntry> = Vec::new();
    push_member(&mut o1, "type", json_str("object"));
    let mut o2: Vec<JsonEntry> = Vec::new();
    push_member(&mut o1, "properties", JsonValue::Object(o2));
    JsonValue::Object(o1)
}

/// The input schema of `get_lookup_values`.
pub open spec fn schema_get_lookup_values() -> JsonModel {
    JsonModel::Object(Seq::empty()
        .push(("type"@, JsonModel::Str("object"@)))
        .push(("properties"@, JsonModel::Object(Seq::empty()
            .push(("lookupid"@, spec_prop("integer"@, "The lookup table ID"@)))
            .push(("istree"@, spec_prop_default("boolean"@, "Whether to return the tree-structured form (default true)"@, JsonModel::Bool(true)))))))
        .push(("required"@, JsonModel::Array(Seq::empty()
            .push(JsonModel::Str("lookupid"@))))))
}

fn build_schema_get_lookup_values() -> (r: JsonValue)
    ensures
        model(r) == schema_get_lookup_values(),
{
    let mut o1: Vec<JsonEntry> = Vec::new();
    push_member(&mut o1, "type", json_str("object"));
    let mut o2: Vec<JsonEntry> = Vec::new();
    push_member(&mut o2, "lookupid", prop("integer", "The lookup table ID"));
    push_member(&mut o2, "istree", prop_default("boolean", "Whether to return the tree-structured form (default true)", JsonValue::Bool(true)));
    push_member(&mut o1, "properties", JsonValue::Object(o2));
    let mut a3: Vec<JsonValue> = Vec::new();
    push_item(&mut a3, json_str("lookupid"));
    push_member(&mut o1, "required", JsonValue::Array(a3));
    JsonValue::Object(o1)
}

/// The input schema of `get_agent`.
pub open spec fn schema_get_agent() -> JsonModel {
    JsonModel::Object(Seq::empty()
        .push(("type"@, JsonModel::Str("object"@)))
        .push(("properties"@, JsonModel::Object(Seq::empty()
            .push(("agent_id"@, spec_prop("integer"@, "The agent ID"@))))))
        .push(("required"@, JsonModel::Array(Seq::empty()
            .push(JsonModel::Str("agent_id"@))))))
}

fn build_schema_get_agent() -> (r: JsonValue)
    ensures
        model(r) == schema_get_agent(),
{
    let mut o1: Vec<JsonEntry> = Vec::new();
    push_member(&mut o1, "type", json_str("object"));
    let mut o2: Vec<JsonEntry> = Vec::new();
    push_member(&mut o2, "agent_id", prop("integer", "The agent ID"));
    push_member(&mut o1, "properties", JsonValue::Object(o2));
    let mut a3: Vec<JsonValue> = Vec::new();
    push_item(&mut a3, json_str("agent_id"));
    push_member(&mut o1, "required", JsonValue::Array(a3));
    JsonValue::Object(o1)
}

/// The input schema of `list_ticket_areas`.
pub open spec fn schema_list_ticket_areas() -> JsonModel {
    JsonModel::Object(Seq::empty()
        .push(("type"@, JsonModel::Str("object"@)))
        .push(("properties"@, JsonModel::Object(Seq::empty()))))
}

fn build_schema_list_ticket_areas() -> (r: JsonValue)
    ensures
        model(r) == schema_list_ticket_areas(),
{
    let mut o1: Vec<JsonEntry> = Vec::new();
    push_member(&mut o1, "type", json_str("object"));
    let mut o2: Vec<JsonEntry> = Vec::new();
    push_member(&mut o1, "properties", JsonValue::Object(o2));
    JsonValue::Object(o1)
}

/// The input schema of `list_workflow_steps`.
pub open spec fn schema_list_workflow_steps() -> JsonModel {
    JsonModel::Object(Seq::empty()
        .push(("type"@, JsonModel::Str("object"@)))
        .push(("properties"@, JsonModel::Object(Seq::empty()
            .push(("workflow_id"@, spec_prop("integer"@, "The workflow ID"@))))))
        .push(("required"@, JsonModel::Array(Seq::empty()
            .push(JsonModel::Str("workflow_id"@))))))
}

fn build_schema_list_workflow_steps() -> (r: JsonValue)
    ensures
        model(r) == schema_list_workflow_steps(),
{
    let mut o1: Vec<JsonEntry> = Vec::new();
    push_member(&mut o1, "type", json_str("object"));
    let mut o2: Vec<JsonEntry> = Vec::new();
    push_member(&mut o2, "workflow_id", prop("integer", "The workflow ID"));
    push_member(&mut o1, "properties", JsonValue::Object(o2));
    let mut a3: Vec<JsonValue> = Vec::new();
    push_item(&mut a3, json_str("workflow_id"));
    push_member(&mut o1, "required", JsonValue::Array(a3));
    JsonValue::Object(o1)
}

/// The input schema of `run_report`.
pub open spec fn schema_run_report() -> JsonModel {
    JsonModel::Object(Seq::empty()
        .push(("type"@, JsonModel::Str("object"@)))
        .push(("properties"@, JsonModel::Object(Seq::empty()
            .push(("report_id"@, spec_prop("integer"@, "The report ID (from list_reports)"@)))
            .push(("filters"@, JsonModel::Object(Seq::empty()
                .push(("type"@, JsonModel::Str("array"@)))
                .push(("description"@, JsonModel::Str("Override the report's filters. Each item filters one column. Only stringruletype 0 (Includes) and 1 (Does not include) are confirmed — avoid other values until confirmed."@)))
                .push(("items"@, JsonModel::Object(Seq::empty()
                    .push(("type"@, JsonModel::Str("object"@)))
                    .push(("properties"@, JsonModel::Object(Seq::empty()
                        .push(("fieldname"@, spec_prop("string"@, "Column name to filter on — must be one of the report's filterable_columns"@)))
                        .push(("stringruletype"@, spec_prop("integer"@, "0 = Includes, 1 = Does not include"@)))
                        .push(("stringrulevalues"@, JsonModel::Object(Seq::empty()
                            .push(("type"@, JsonModel::Str("array"@)))
                            .push(("items"@, JsonModel::Object(Seq::empty()
                                .push(("type"@, JsonModel::Str("string"@))))))
                            .push(("description"@, JsonModel::Str("One or more values to match against this column"@)))))))))
                    .push(("required"@, JsonModel::Array(Seq::empty()
                        .push(JsonModel::Str("fieldname"@))
                        .push(JsonModel::Str("stringruletype"@))
                        .push(JsonModel::Str("stringrulevalues"@)))))))))))
            .push(("parameters"@, JsonModel::Object(Seq::empty()
                .push(("type"@, JsonModel::Str("object"@)))
                .push(("description"@, JsonModel::Str("Optional report-specific query parameters as key-value pairs (varies per report — e.g. some reports take a 'clientname' filter). Unconfirmed whether these actually affect results — prefer filters for narrowing by column."@)))
                .push(("additionalProperties"@, JsonModel::Object(Seq::empty()
                    .push(("type"@, JsonModel::Str("string"@))))))))))))
        .push(("required"@, JsonModel::Array(Seq::empty()
            .push(JsonModel::Str("report_id"@))))))
}

fn build_schema_run_report() -> (r: JsonValue)
    ensures
        model(r) == schema_run_report(),
{
    let mut o1: Vec<JsonEntry> = Vec::new();
    push_member(&mut o1, "type", json_str("object"));
    let mut o2: Vec<JsonEntry> = Vec::new();
    push_member(&mut o2, "report_id", prop("integer", "The report ID (from list_reports)"));
    let mut o3: Vec<JsonEntry> = Vec::new();
    push_member(&mut o3, "type", json_str("array"));
    push_member(&mut o3, "description", json_str("Override the report's filters. Each item filters one column. Only stringruletype 0 (Includes) and 1 (Does not include) are confirmed — avoid other values until confirmed."));
    let mut o4: Vec<JsonEntry> = Vec::new();
    push_member(&mut o4, "type", json_str("object"));
    let mut o5: Vec<JsonEntry> = Vec::new();
    push_member(&mut o5, "fieldname", prop("string", "Column name to filter on — must be one of the report's filterable_columns"));
    push_member(&mut o5, "stringruletype", prop("integer", "0 = Includes, 1 = Does not include"));
    let mut o6: Vec<JsonEntry> = Vec::new();
    push_member(&mut o6, "type", json_str("array"));
    let mut o7: Vec<JsonEntry> = Vec::new();
    push_member(&mut o7, "type", json_str("string"));
    push_member(&mut o6, "items", JsonValue::Object(o7));
    push_member(&mut o6, "description", json_str("One or more values to match against this column"));
    push_member(&mut o5, "stringrulevalues", JsonValue::Object(o6));
    push_member(&mut o4, "properties", JsonValue::Object(o5));
    let mut a8: Vec<JsonValue> = Vec::new();
    push_item(&mut a8, json_str("fieldname"));
    push_item(&mut a8, json_str("stringruletype"));
    push_item(&mut a8, json_str("stringrulevalues"));
    push_member(&mut o4, "required", JsonValue::Array(a8));
    push_member(&mut o3, "items", JsonValue::Object(o4));
    push_member(&mut o2, "filters", JsonValue::Object(o3));
    let mut o9: Vec<JsonEntry> = Vec::new();
    push_member(&mut o9, "type", json_str("object"));
    push_member(&mut o9, "description", json_str("Optional report-specific query parameters as key-value pairs (varies per report — e.g. some reports take a 'clientname' filter). Unconfirmed whether these actually affect results — prefer filters for narrowing by column."));
    let mut o10: Vec<JsonEntry> = Vec::new();
    push_member(&mut o10, "type", json_str("string"));
    push_member(&mut o9, "additionalProperties", JsonValue::Object(o10));
    push_member(&mut o2, "parameters", JsonValue::Object(o9));
    push_member(&mut o1, "properties", JsonValue::Object(o2));
    let mut a11: Vec<JsonValue> = Vec::new();
    push_item(&mut a11, json_str("report_id"));
    push_member(&mut o1, "required", JsonValue::Array(a11));
    JsonValue::Object(o1)
}

/// The input schema of `get_me`.
pub open spec fn schema_get_me() -> JsonModel {
    JsonModel::Object(Seq::empty()
        .push(("type"@, JsonModel::Str("object"@)))
        .push(("properties"@, JsonModel::Object(Seq::empty()))))
}

fn build_schema_get_me() -> (r: JsonValue)
    ensures
        model(r) == schema_get_me(),
{
    let mut o1: Vec<JsonEntry> = Vec::new();
    push_member(&mut o1, "type", json_str("object"));
    let mut o2: Vec<JsonEntry> = Vec::new();
    push_member(&mut o1, "properties", JsonValue::Object(o2));
    JsonValue::Object(o1)
}

/// The input schema of `get_ticket_assets`.
pub open spec fn schema_get_ticket_assets() -> JsonModel {
    JsonModel::Object(Seq::empty()
        .push(("type"@, JsonModel::Str("object"@)))
        .push(("properties"@, JsonModel::Object(Seq::empty()
            .push(("ticket_id"@, spec_prop("integer"@, "The ticket ID"@))))))
        .push(("required"@, JsonModel::Array(Seq::empty()
            .push(JsonModel::Str("ticket_id"@))))))
}

fn build_schema_get_ticket_assets() -> (r: JsonValue)
    ensures
        model(r) == schema_get_ticket_assets(),
{
    let mut o1: Vec<JsonEntry> = Vec::new();
    push_member(&mut o1, "type", json_str("object"));
    let mut o2: Vec<JsonEntry> = Vec::new();
    push_member(&mut o2, "ticket_id", prop("integer", "The ticket ID"));
    push_member(&mut o1, "properties", JsonValue::Object(o2));
    let mut a3: Vec<JsonValue> = Vec::new();
    push_item(&mut a3, json_str("ticket_id"));
    push_member(&mut o1, "required", JsonValue::Array(a3));
    JsonValue::Object(o1)
}

/// The input schema of `get_asset`.
pub open spec fn schema_get_asset() -> JsonModel {
    JsonModel::Object(Seq::empty()
        .push(("type"@, JsonModel::Str("object"@)))
        .push(("properties"@, JsonModel::Object(Seq::empty()
            .push(("asset_id"@, spec_prop("integer"@, "The asset ID"@))))))
        .push(("required"@, JsonModel::Array(Seq::empty()
            .push(JsonModel::Str("asset_id"@))))))
}

fn build_schema_get_asset() -> (r: JsonValue)
    ensures
        model(r) == schema_get_asset(),
{
    let mut o1: Vec<JsonEntry> = Vec::new();
    push_member(&mut o1, "type", json_str("object"));
    let mut o2: Vec<JsonEntry> = Vec::new();
    push_member(&mut o2, "asset_id", prop("integer", "The asset ID"));
    push_member(&mut o1, "properties", JsonValue::Object(o2));
    let mut a3: Vec<JsonValue> = Vec::new();
    push_item(&mut a3, json_str("asset_id"));
    push_member(&mut o1, "required", JsonValue::Array(a3));
    JsonValue::Object(o1)
}

/// The input schema of `list_assets`.
pub open spec fn schema_list_assets() -> JsonModel {
    JsonModel::Object(Seq::empty()
        .push(("type"@, JsonModel::Str("object"@)))
        .push(("properties"@, JsonModel::Object(Seq::empty()
            .push(("page"@, spec_prop_default("integer"@, "Page number (default 1)"@, JsonModel::Int(1))))
            .push(("page_size"@, spec_prop_default("integer"@, "Results per page (1-100, default 50)"@, JsonModel::Int(50))))
            .push(("assettype_id"@, spec_prop("integer"@, "Filter by asset type ID. Omit for all types."@)))
            .push(("search"@, spec_prop("string"@, "Keyword search across assets"@)))))))
}

fn build_schema_list_assets() -> (r: JsonValue)
    ensures
        model(r) == schema_list_assets(),
{
    let mut o1: Vec<JsonEntry> = Vec::new();
    push_member(&mut o1, "type", json_str("object"));
    let mut o2: Vec<JsonEntry> = Vec::new();
    push_member(&mut o2, "page", prop_default("integer", "Page number (default 1)", JsonValue::Int(1)));
    push_member(&mut o2, "page_size", prop_default("integer", "Results per page (1-100, default 50)", JsonValue::Int(50)));
    push_member(&mut o2, "assettype_id", prop("integer", "Filter by asset type ID. Omit for all types."));
    push_member(&mut o2, "search", prop("string", "Keyword search across assets"));
    push_member(&mut o1, "properties", JsonValue::Object(o2));
    JsonValue::Object(o1)
}

/// The input schema of `search_assets`.
pub open spec fn schema_search_assets() -> JsonModel {
    JsonModel::Object(Seq::empty()
        .push(("type"@, JsonModel::Str("object"@)))
        .push(("properties"@, JsonModel::Object(Seq::empty()
            .push(("query"@, spec_prop("string"@, "Search query"@)))
            .push(("page_size"@, spec_prop_default("integer"@, "Max results (default 20)"@, JsonModel::Int(20)))))))
        .push(("required"@, JsonModel::Array(Seq::empty()
            .push(JsonModel::Str("query"@))))))
}

fn build_schema_search_assets() -> (r: JsonValue)
    ensures
        model(r) == schema_search_assets(),
{
    let mut o1: Vec<JsonEntry> = Vec::new();
    push_member(&mut o1, "type", json_str("object"));
    let mut o2: Vec<JsonEntry> = Vec::new();
    push_member(&mut o2, "query", prop("string", "Search query"));
    push_member(&mut o2, "page_size", prop_default("integer", "Max results (default 20)", JsonValue::Int(20)));
    push_member(&mut o1, "properties", JsonValue::Object(o2));
    let mut a3: Vec<JsonValue> = Vec::new();
    push_item(&mut a3, json_str("query"));
    push_member(&mut o1, "required", JsonValue::Array(a3));
    JsonValue::Object(o1)
}

/// The input schema of `list_sites`.
pub open spec fn schema_list_sites() -> JsonModel {
    JsonModel::Object(Seq::empty()
        .push(("type"@, JsonModel::Str("object"@)))
        .push(("properties"@, JsonModel::Object(Seq::empty()
            .push(("page"@, spec_prop_default("integer"@, "Page number (default 1)"@, JsonModel::Int(1))))
            .push(("page_size"@, spec_prop_default("integer"@, "Results per page (1-100, default 50)"@, JsonModel::Int(50))))))))
}

fn build_schema_list_sites() -> (r: JsonValue)
    ensures
        model(r) == schema_list_sites(),
{
    let mut o1: Vec<JsonEntry> = Vec::new();
    push_member(&mut o1, "type", json_str("object"));
    let mut o2: Vec<JsonEntry> = Vec::new();
    push_member(&mut o2, "page", prop_default("integer", "Page number (default 1)", JsonValue::Int(1)));
    push_member(&mut o2, "page_size", prop_default("integer", "Results per page (1-100, default 50)", JsonValue::Int(50)));
    push_member(&mut o1, "properties", JsonValue::Object(o2));
    JsonValue::Object(o1)
}

/// The input schema of `get_site`.
pub open spec fn schema_get_site() -> JsonModel {
    JsonModel::Object(Seq::empty()
        .push(("type"@, JsonModel::Str("object"@)))
        .push(("properties"@, JsonModel::Object(Seq::empty()
            .push(("site_id"@, spec_prop("integer"@, "The site ID"@))))))
        .push(("required"@, JsonModel::Array(Seq::empty()
            .push(JsonModel::Str("site_id"@))))))
}

fn build_schema_get_site() -> (r: JsonValue)
    ensures
        model(r) == schema_get_site(),
{
    let mut o1: Vec<JsonEntry> = Vec::new();
    push_member(&mut o1, "type", json_str("object"));
    let mut o2: Vec<JsonEntry> = Vec::new();
    push_member(&mut o2, "site_id", prop("integer", "The site ID"));
    push_member(&mut o1, "properties", JsonValue::Object(o2));
    let mut a3: Vec<JsonValue> = Vec::new();
    push_item(&mut a3, json_str("site_id"));
    push_member(&mut o1, "required", JsonValue::Array(a3));
    JsonValue::Object(o1)
}

/// The input schema of `create_site`.
pub open spec fn schema_create_site() -> JsonModel {
    JsonModel::Object(Seq::empty()
        .push(("type"@, JsonModel::Str("object"@)))
        .push(("properties"@, JsonModel::Object(Seq::empty()
            .push(("client_id"@, spec_prop("integer"@, "The client this site belongs to"@)))
            .push(("name"@, spec_prop("string"@, "Site name"@)))
            .push(("address_line1"@, spec_prop("string"@, "Address line 1"@)))
            .push(("address_line2"@, spec_prop("string"@, "Address line 2"@)))
            .push(("address_line3"@, spec_prop("string"@, "Address line 3"@)))
            .push(("address_line4"@, spec_prop("string"@, "Address line 4"@)))
            .push(("address_postcode"@, spec_prop("string"@, "Postcode"@)))
            .push(("sla_id"@, spec_prop("integer"@, "SLA ID to apply to this site"@)))
            .push(("timezone"@, spec_prop("string"@, "Timezone name"@)))
            .push(("inactive"@, spec_prop("boolean"@, "Mark as inactive (default false)"@))))))
        .push(("required"@, JsonModel::Array(Seq::empty()
            .push(JsonModel::Str("client_id"@))
            .push(JsonModel::Str("name"@))))))
}

fn build_schema_create_site() -> (r: JsonValue)
    ensures
        model(r) == schema_create_site(),
{
    let mut o1: Vec<JsonEntry> = Vec::new();
    push_member(&mut o1, "type", json_str("object"));
    let mut o2: Vec<JsonEntry> = Vec::new();
    push_member(&mut o2, "client_id", prop("integer", "The client this site belongs to"));
    push_member(&mut o2, "name", prop("string", "Site name"));
    push_member(&mut o2, "address_line1", prop("string", "Address line 1"));
    push_member(&mut o2, "address_line2", prop("string", "Address line 2"));
    push_member(&mut o2, "address_line3", prop("string", "Address line 3"));
    push_member(&mut o2, "address_line4", prop("string", "Address line 4"));
    push_member(&mut o2, "address_postcode", prop("string", "Postcode"));
    push_member(&mut o2, "sla_id", prop("integer", "SLA ID to apply to this site"));
    push_member(&mut o2, "timezone", prop("string", "Timezone name"));
    push_member(&mut o2, "inactive", prop("boolean", "Mark as inactive (default false)"));
    push_member(&mut o1, "properties", JsonValue::Object(o2));
    let mut a3: Vec<JsonValue> = Vec::new();
    push_item(&mut a3, json_str("client_id"));
    push_item(&mut a3, json_str("name"));
    push_member(&mut o1, "required", JsonValue::Array(a3));
    JsonValue::Object(o1)
}

/// The input schema of `update_site`.
pub open spec fn schema_update_site() -> JsonModel {
    JsonModel::Object(Seq::empty()
        .push(("type"@, JsonModel::Str("object"@)))
        .push(("properties"@, JsonModel::Object(Seq::empty()
            .push(("site_id"@, spec_prop("integer"@, "The site ID to update"@)))
            .push(("name"@, spec_prop("string"@, "New site name"@)))
            .push(("address_line1"@, spec_prop("string"@, "Address line 1"@)))
            .push(("address_line2"@, spec_prop("string"@, "Address line 2"@)))
            .push(("address_line3"@, spec_prop("string"@, "Address line 3"@)))
            .push(("address_line4"@, spec_prop("string"@, "Address line 4"@)))
            .push(("address_postcode"@, spec_prop("string"@, "Postcode"@)))
            .push(("sla_id"@, spec_prop("integer"@, "SLA ID to apply to this site"@)))
            .push(("timezone"@, spec_prop("string"@, "Timezone name"@)))
            .push(("inactive"@, spec_prop("boolean"@, "Mark as inactive/active"@))))))
        .push(("required"@, JsonModel::Array(Seq::empty()
            .push(JsonModel::Str("site_id"@))))))
}

fn build_schema_update_site() -> (r: JsonValue)
    ensures
        model(r) == schema_update_site(),
{
    let mut o1: Vec<JsonEntry> = Vec::new();
    push_member(&mut o1, "type", json_str("object"));
    let mut o2: Vec<JsonEntry> = Vec::new();
    push_member(&mut o2, "site_id", prop("integer", "The site ID to update"));
    push_member(&mut o2, "name", prop("string", "New site name"));
    push_member(&mut o2, "address_line1", prop("string", "Address line 1"));
    push_member(&mut o2, "address_line2", prop("string", "Address line 2"));
    push_member(&mut o2, "address_line3", prop("string", "Address line 3"));
    push_member(&mut o2, "address_line4", prop("string", "Address line 4"));
    push_member(&mut o2, "address_postcode", prop("string", "Postcode"));
    push_member(&mut o2, "sla_id", prop("integer", "SLA ID to apply to this site"));
    push_member(&mut o2, "timezone", prop("string", "Timezone name"));
    push_member(&mut o2, "inactive", prop("boolean", "Mark as inactive/active"));
    push_member(&mut o1, "properties", JsonValue::Object(o2));
    let mut a3: Vec<JsonValue> = Vec::new();
    push_item(&mut a3, json_str("site_id"));
    push_member(&mut o1, "required", JsonValue::Array(a3));
    JsonValue::Object(o1)
}

/// The input schema of `list_agents`.
pub open spec fn schema_list_agents() -> JsonModel {
    JsonModel::Object(Seq::empty()
        .push(("type"@, JsonModel::Str("object"@)))
        .push(("properties"@, JsonModel::Object(Seq::empty()
            .push(("page"@, spec_prop_default("integer"@, "Page number (default 1)"@, JsonModel::Int(1))))
            .push(("page_size"@, spec_prop_default("integer"@, "Results per page (1-100, default 50)"@, JsonModel::Int(50))))))))
}

fn build_schema_list_agents() -> (r: JsonValue)
    ensures
        model(r) == schema_list_agents(),
{
    let mut o1: Vec<JsonEntry> = Vec::new();
    push_member(&mut o1, "type", json_str("object"));
    let mut o2: Vec<JsonEntry> = Vec::new();
    push_member(&mut o2, "page", prop_default("integer", "Page number (default 1)", JsonValue::Int(1)));
    push_member(&mut o2, "page_size", prop_default("integer", "Results per page (1-100, default 50)", JsonValue::Int(50)));
    push_member(&mut o1, "properties", JsonValue::Object(o2));
    JsonValue::Object(o1)
}

/// The input schema of `list_asset_groups`.
pub open spec fn schema_list_asset_groups() -> JsonModel {
    JsonModel::Object(Seq::empty()
        .push(("type"@, JsonModel::Str("object"@)))
        .push(("properties"@, JsonModel::Object(Seq::empty()
            .push(("page"@, spec_prop_default("integer"@, "Page number (default 1)"@, JsonModel::Int(1))))
            .push(("page_size"@, spec_prop_default("integer"@, "Results per page (1-100, default 50)"@, JsonModel::Int(50))))))))
}

fn build_schema_list_asset_groups() -> (r: JsonValue)
    ensures
        model(r) == schema_list_asset_groups(),
{
    let mut o1: Vec<JsonEntry> = Vec::new();
    push_member(&mut o1, "type", json_str("object"));
    let mut o2: Vec<JsonEntry> = Vec::new();
    push_member(&mut o2, "page", prop_default("integer", "Page number (default 1)", JsonValue::Int(1)));
    push_member(&mut o2, "page_size", prop_default("integer", "Results per page (1-100, default 50)", JsonValue::Int(50)));
    push_member(&mut o1, "properties", JsonValue::Object(o2));
    JsonValue::Object(o1)
}

/// The input schema of `get_asset_group`.
pub open spec fn schema_get_asset_group() -> JsonModel {
    JsonModel::Object(Seq::empty()
        .push(("type"@, JsonModel::Str("object"@)))
        .push(("properties"@, JsonModel::Object(Seq::empty()
            .push(("asset_group_id"@, spec_prop("integer"@, "The asset group ID"@))))))
        .push(("required"@, JsonModel::Array(Seq::empty()
            .push(JsonModel::Str("asset_group_id"@))))))
}

fn build_schema_get_asset_group() -> (r: JsonValue)
    ensures
        model(r) == schema_get_asset_group(),
{
    let mut o1: Vec<JsonEntry> = Vec::new();
    push_member(&mut o1, "type", json_str("object"));
    let mut o2: Vec<JsonEntry> = Vec::new();
    push_member(&mut o2, "asset_group_id", prop("integer", "The asset group ID"));
    push_member(&mut o1, "properties", JsonValue::Object(o2));
    let mut a3: Vec<JsonValue> = Vec::new();
    push_item(&mut a3, json_str("asset_group_id"));
    push_member(&mut o1, "required", JsonValue::Array(a3));
    JsonValue::Object(o1)
}

/// The input schema of `list_slas`.
pub open spec fn schema_list_slas() -> JsonModel {
    JsonModel::Object(Seq::empty()
        .push(("type"@, JsonModel::Str("object"@)))
        .push(("properties"@, JsonModel::Object(Seq::empty()))))
}

fn build_schema_list_slas() -> (r: JsonValue)
    ensures
        model(r) == schema_list_slas(),
{
    let mut o1: Vec<JsonEntry> = Vec::new();
    push_member(&mut o1, "type", json_str("object"));
    let mut o2: Vec<JsonEntry> = Vec::new();
    push_member(&mut o1, "properties", JsonValue::Object(o2));
    JsonValue::Object(o1)
}

/// The input schema of `get_sla`.
pub open spec fn schema_get_sla() -> JsonModel {
    JsonModel::Object(Seq::empty()
        .push(("type"@, JsonModel::Str("object"@)))
        .push(("properties"@, JsonModel::Object(Seq::empty()
            .push(("sla_id"@, spec_prop("integer"@, "The SLA ID"@))))))
        .push(("required"@, JsonModel::Array(Seq::empty()
            .push(JsonModel::Str("sla_id"@))))))
}

fn build_schema_get_sla() -> (r: JsonValue)
    ensures
        model(r) == schema_get_sla(),
{
    let mut o1: Vec<JsonEntry> = Vec::new();
    push_member(&mut o1, "type", json_str("object"));
    let mut o2: Vec<JsonEntry> = Vec::new();
    push_member(&mut o2, "sla_id", prop("integer", "The SLA ID"));
    push_member(&mut o1, "properties", JsonValue::Object(o2));
    let mut a3: Vec<JsonValue> = Vec::new();
    push_item(&mut a3, json_str("sla_id"));
    push_member(&mut o1, "required", JsonValue::Array(a3));
    JsonValue::Object(o1)
}

/// The input schema of `list_priorities`.
pub open spec fn schema_list_priorities() -> JsonModel {
    JsonModel::Object(Seq::empty()
        .push(("type"@, JsonModel::Str("object"@)))
        .push(("properties"@, JsonModel::Object(Seq::empty()
            .push(("sla_id"@, spec_prop("integer"@, "The SLA ID"@))))))
        .push(("required"@, JsonModel::Array(Seq::empty()
            .push(JsonModel::Str("sla_id"@))))))
}

fn build_schema_list_priorities() -> (r: JsonValue)
    ensures
        model(r) == schema_list_priorities(),
{
    let mut o1: Vec<JsonEntry> = Vec::new();
    push_member(&mut o1, "type", json_str("object"));
    let mut o2: Vec<JsonEntry> = Vec::new();
    push_member(&mut o2, "sla_id", prop("integer", "The SLA ID"));
    push_member(&mut o1, "properties", JsonValue::Object(o2));
    let mut a3: Vec<JsonValue> = Vec::new();
    push_item(&mut a3, json_str("sla_id"));
    push_member(&mut o1, "required", JsonValue::Array(a3));
    JsonValue::Object(o1)
}

/// The input schema of `list_outcomes`.
pub open spec fn schema_list_outcomes() -> JsonModel {
    JsonModel::Object(Seq::empty()
        .push(("type"@, JsonModel::Str("object"@)))
        .push(("properties"@, JsonModel::Object(Seq::empty()))))
}

fn build_schema_list_outcomes() -> (r: JsonValue)
    ensures
        model(r) == schema_list_outcomes(),
{
    let mut o1: Vec<JsonEntry> = Vec::new();
    push_member(&mut o1, "type", json_str("object"));
    let mut o2: Vec<JsonEntry> = Vec::new();
    push_member(&mut o1, "properties", JsonValue::Object(o2));
    JsonValue::Object(o1)
}

/// The input schema of `list_categories`.
pub open spec fn schema_list_categories() -> JsonModel {
    JsonModel::Object(Seq::empty()
        .push(("type"@, JsonModel::Str("object"@)))
        .push(("properties"@, JsonModel::Object(Seq::empty()
            .push(("type_id"@, spec_prop("integer"@, "Category type ID (1 = ticket categories, 2 = resolution categories)"@))))))
        .push(("required"@, JsonModel::Array(Seq::empty()
            .push(JsonModel::Str("type_id"@))))))
}

fn build_schema_list_categories() -> (r: JsonValue)
    ensures
        model(r) == schema_list_categories(),
{
    let mut o1: Vec<JsonEntry> = Vec::new();
    push_member(&mut o1, "type", json_str("object"));
    let mut o2: Vec<JsonEntry> = Vec::new();
    push_member(&mut o2, "type_id", prop("integer", "Category type ID (1 = ticket categories, 2 = resolution categories)"));
    push_member(&mut o1, "properties", JsonValue::Object(o2));
    let mut a3: Vec<JsonValue> = Vec::new();
    push_item(&mut a3, json_str("type_id"));
    push_member(&mut o1, "required", JsonValue::Array(a3));
    JsonValue::Object(o1)
}

/// The input schema of `semantic_search`.
pub open spec fn schema_semantic_search() -> JsonModel {
    JsonModel::Object(Seq::empty()
        .push(("type"@, JsonModel::Str("object"@)))
        .push(("properties"@, JsonModel::Object(Seq::empty()
            .push(("query"@, spec_prop("string"@, "Natural language search query"@)))
            .push(("limit"@, spec_prop_default("integer"@, "Maximum results (default 10)"@, JsonModel::Int(10)))))))
        .push(("required"@, JsonModel::Array(Seq::empty()
            .push(JsonModel::Str("query"@))))))
}

fn build_schema_semantic_search() -> (r: JsonValue)
    ensures
        model(r) == schema_semantic_search(),
{
    let mut o1: Vec<JsonEntry> = Vec::new();
    push_member(&mut o1, "type", json_str("object"));
    let mut o2: Vec<JsonEntry> = Vec::new();
    push_member(&mut o2, "query", prop("string", "Natural language search query"));
    push_member(&mut o2, "limit", prop_default("integer", "Maximum results (default 10)", JsonValue::Int(10)));
    push_member(&mut o1, "properties", JsonValue::Object(o2));
    let mut a3: Vec<JsonValue> = Vec::new();
    push_item(&mut a3, json_str("query"));
    push_member(&mut o1, "required", JsonValue::Array(a3));
    JsonValue::Object(o1)
}

/// The input schema of `embedding_status`.
pub open spec fn schema_embedding_status() -> JsonModel {
    JsonModel::Object(Seq::empty()
        .push(("type"@, JsonModel::Str("object"@)))
        .push(("properties"@, JsonModel::Object(Seq::empty()))))
}

fn build_schema_embedding_status() -> (r: JsonValue)
    ensures
        model(r) == schema_embedding_status(),
{
    let mut o1: Vec<JsonEntry> = Vec::new();
    push_member(&mut o1, "type", json_str("object"));
    let mut o2: Vec<JsonEntry> = Vec::new();
    push_member(&mut o1, "properties", JsonValue::Object(o2));
    JsonValue::Object(o1)
}

/// The input schema of `reembed`.
pub open spec fn schema_reembed() -> JsonModel {
    JsonModel::Object(Seq::empty()
        .push(("type"@, JsonModel::Str("object"@)))
        .push(("properties"@, JsonModel::Object(Seq::empty()
            .push(("scope"@, spec_prop_default("string"@, "Scope: 'all' for full reindex, or 'ticket:{id}' for a specific ticket"@, JsonModel::Str("all"@))))))))
}

fn build_schema_reembed() -> (r: JsonValue)
    ensures
        model(r) == schema_reembed(),
{
    let mut o1: Vec<JsonEntry> = Vec::new();
    push_member(&mut o1, "type", json_str("object"));
    let mut o2: Vec<JsonEntry> = Vec::new();
    push_member(&mut o2, "scope", prop_default("string", "Scope: 'all' for full reindex, or 'ticket:{id}' for a specific ticket", json_str("all")));
    push_member(&mut o1, "properties", JsonValue::Object(o2));
    JsonValue::Object(o1)
}

/// Tool names, part 1.
pub open spec fn halo_name_0(i: int) -> Seq<char> {
    if i == 0 {
        "list_tickets"@
    } else if i == 1 {
        "get_ticket"@
    } else if i == 2 {
        "create_ticket"@
    } else if i == 3 {
        "update_ticket"@
    } else if i == 4 {
        "search_tickets"@
    } else if i == 5 {
        "list_open_tickets"@
    } else if i == 6 {
        "list_tickets_by_client"@
    } else if i == 7 {
        "list_high_priority_tickets"@
    } else if i == 8 {
        "list_unassigned_tickets"@
    } else if i == 9 {
        "list_my_tickets"@
    } else if i == 10 {
        "list_actions"@
    } else if i == 11 {
        "add_action"@
    } else if i == 12 {
        "create_action"@
    } else if i == 13 {
        "send_email_reply"@
    } else if i == 14 {
        "add_internal_note"@
    } else if i == 15 {
        "change_ticket_status_with_note"@
    } else if i == 16 {
        "list_ticket_actions"@
    } else if i == 17 {
        "log_time"@
    } else if i == 18 {
        "update_action"@
    } else if i == 19 {
        "delete_action"@
    } else if i == 20 {
        "get_action"@
    } else if i == 21 {
        "get_available_actions"@
    } else if i == 22 {
        "execute_workflow_action"@
    } else if i == 23 {
        "list_statuses"@
    } else if i == 24 {
        "get_status_details"@
    } else if i == 25 {
        "global_search"@
    } else if i == 26 {
        "list_field_groups"@
    } else if i == 27 {
        "list_invoices"@
    } else if i == 28 {
        "list_recurring_invoices"@
    } else if i == 29 {
        "get_recurring_invoice"@
    } else if i == 30 {
        "list_charge_rates"@
    } else if i == 31 {
        "list_billing_lines"@
    } else if i == 32 {
        "list_teams"@
    } else {
        "list_asset_changes"@
    }
}

fn halo_name_str_0(i: usize) -> (r: &'static str)
    requires
        i < 34,
    ensures
        r@ == halo_name_0(i as int),
{
    if i == 0 {
        "list_tickets"
    } else if i == 1 {
        "get_ticket"
    } else if i == 2 {
        "create_ticket"
    } else if i == 3 {
        "update_ticket"
    } else if i == 4 {
        "search_tickets"
    } else if i == 5 {
        "list_open_tickets"
    } else if i == 6 {
        "list_tickets_by_client"
    } else if i == 7 {
        "list_high_priority_tickets"
    } else if i == 8 {
        "list_unassigned_tickets"
    } else if i == 9 {
        "list_my_tickets"
    } else if i == 10 {
        "list_actions"
    } else if i == 11 {
        "add_action"
    } else if i == 12 {
        "create_action"
    } else if i == 13 {
        "send_email_reply"
    } else if i == 14 {
        "add_internal_note"
    } else if i == 15 {
        "change_ticket_status_with_note"
    } else if i == 16 {
        "list_ticket_actions"
    } else if i == 17 {
        "log_time"
    } else if i == 18 {
        "update_action"
    } else if i == 19 {
        "delete_action"
    } else if i == 20 {
        "get_action"
    } else if i == 21 {
        "get_available_actions"
    } else if i == 22 {
        "execute_workflow_action"
    } else if i == 23 {
        "list_statuses"
    } else if i == 24 {
        "get_status_details"
    } else if i == 25 {
        "global_search"
    } else if i == 26 {
        "list_field_groups"
    } else if i == 27 {
        "list_invoices"
    } else if i == 28 {
        "list_recurring_invoices"
    } else if i == 29 {
        "get_recurring_invoice"
    } else if i == 30 {
        "list_charge_rates"
    } else if i == 31 {
        "list_billing_lines"
    } else if i == 32 {
        "list_teams"
    } else {
        "list_asset_changes"
    }
}

/// Tool descriptions, part 1.
pub open spec fn halo_description_0(i: int) -> Seq<char> {
    if i == 0 {
        "List tickets with optional filters. Returns paginated results. Use filters to narrow by agent, team/queue, client, status, or keyword search."@
    } else if i == 1 {
        "Get full details of a single ticket including custom fields, workflow state, and related information."@
    } else if i == 2 {
        "Create a new ticket. At minimum requires a summary and client_id."@
    } else if i == 3 {
        "Update fields on an existing ticket. Only provided fields are changed."@
    } else if i == 4 {
        "Search tickets by keyword. Returns matching tickets ordered by relevance."@
    } else if i == 5 {
        "List open (unresolved) tickets. Convenience wrapper over list_tickets with open_only=true."@
    } else if i == 6 {
        "List tickets for a specific client. Convenience wrapper over list_tickets with client_id set."@
    } else if i == 7 {
        "List tickets at or above a set of priority labels (defaults to Production's High/Critical/RFO — override priority_labels for other environments, e.g. Sandbox uses P1-P5 labels instead). Queries each label separately and merges results, since only single-label filtering per call is confirmed."@
    } else if i == 8 {
        "List tickets with no agent assigned. Confirmed against the agent UI: unassigned tickets are represented by a reserved placeholder agent_id, not a null/missing value."@
    } else if i == 9 {
        "List tickets assigned to the authenticated agent. Resolves your own agent ID via get_me."@
    } else if i == 10 {
        "List all actions (notes, replies, workflow transitions) on a ticket."@
    } else if i == 11 {
        "Add a note or reply to a ticket. Can optionally include a workflow transition."@
    } else if i == 12 {
        "Add a note or reply to a ticket, with optional workflow transition. Same as add_action."@
    } else if i == 13 {
        "Send a visible email reply to the ticket contact. The reply is sent from your HaloPSA account and is visible to the end user."@
    } else if i == 14 {
        "Add a private internal note to a ticket. Visible to agents only — not sent to the end user."@
    } else if i == 15 {
        "Change a ticket's status and add a note in one operation."@
    } else if i == 16 {
        "List all actions (notes, replies, workflow transitions) on a ticket. Alias for list_actions."@
    } else if i == 17 {
        "Log time spent on a ticket. Time is recorded as an action/note entry."@
    } else if i == 18 {
        "Edit the text of an existing action (note or reply) on a ticket."@
    } else if i == 19 {
        "Delete an action (note or reply) from a ticket by its ID. Requires appropriate HaloPSA permissions."@
    } else if i == 20 {
        "Get full details of a single action (note, reply, or transition) by its ID."@
    } else if i == 21 {
        "Get the workflow actions available on a ticket's current step. Returns actions the authenticated user can execute."@
    } else if i == 22 {
        "Execute a specific workflow action on a ticket, transitioning it to the next step. Use get_available_actions first to see valid options."@
    } else if i == 23 {
        "List available statuses with their IDs. Pass status_type \"ticket\" to scope to ticket statuses only; omit for all statuses regardless of type."@
    } else if i == 24 {
        "Get full configuration details for a single status (SLA hold behavior, email settings, colour, etc). Use list_statuses to find status IDs."@
    } else if i == 25 {
        "Search across all entity types at once (tickets, clients, users, assets, etc). Good for a broad first look when you don't know what kind of record you're looking for."@
    } else if i == 26 {
        "List custom field groups (collections of custom fields attached to request forms, e.g. 'Laptop Request', 'Leaver Details')."@
    } else if i == 27 {
        "List invoices. Returns paginated results."@
    } else if i == 28 {
        "List recurring invoices (billing templates that generate invoices on a schedule). Returns paginated results."@
    } else if i == 29 {
        "Get full details of a single recurring invoice by ID, including its lines and linked credit notes."@
    } else if i == 30 {
        "List charge types (Configuration > Billing > Charge Types) used to categorize billable ticket actions, e.g. 'SD - Remote Reactive Support', 'FIELD - Travel'."@
    } else if i == 31 {
        "List individual billing line items (flattened from invoices). Returns paginated results. Endpoint unconfirmed against this sandbox — flag results as unverified."@
    } else if i == 32 {
        "List all teams/queues the user has access to."@
    } else {
        "List change history for assets (audit trail). Endpoint unconfirmed against this sandbox — flag results as unverified."@
    }
}

fn halo_description_str_0(i: usize) -> (r: &'static str)
    requires
        i < 34,
    ensures
        r@ == halo_description_0(i as int),
{
    if i == 0 {
        "List tickets with optional filters. Returns paginated results. Use filters to narrow by agent, team/queue, client, status, or keyword search."
    } else if i == 1 {
        "Get full details of a single ticket including custom fields, workflow state, and related information."
    } else if i == 2 {
        "Create a new ticket. At minimum requires a summary and client_id."
    } else if i == 3 {
        "Update fields on an existing ticket. Only provided fields are changed."
    } else if i == 4 {
        "Search tickets by keyword. Returns matching tickets ordered by relevance."
    } else if i == 5 {
        "List open (unresolved) tickets. Convenience wrapper over list_tickets with open_only=true."
    } else if i == 6 {
        "List tickets for a specific client. Convenience wrapper over list_tickets with client_id set."
    } else if i == 7 {
        "List tickets at or above a set of priority labels (defaults to Production's High/Critical/RFO — override priority_labels for other environments, e.g. Sandbox uses P1-P5 labels instead). Queries each label separately and merges results, since only single-label filtering per call is confirmed."
    } else if i == 8 {
        "List tickets with no agent assigned. Confirmed against the agent UI: unassigned tickets are represented by a reserved placeholder agent_id, not a null/missing value."
    } else if i == 9 {
        "List tickets assigned to the authenticated agent. Resolves your own agent ID via get_me."
    } else if i == 10 {
        "List all actions (notes, replies, workflow transitions) on a ticket."
    } else if i == 11 {
        "Add a note or reply to a ticket. Can optionally include a workflow transition."
    } else if i == 12 {
        "Add a note or reply to a ticket, with optional workflow transition. Same as add_action."
    } else if i == 13 {
        "Send a visible email reply to the ticket contact. The reply is sent from your HaloPSA account and is visible to the end user."
    } else if i == 14 {
        "Add a private internal note to a ticket. Visible to agents only — not sent to the end user."
    } else if i == 15 {
        "Change a ticket's status and add a note in one operation."
    } else if i == 16 {
        "List all actions (notes, replies, workflow transitions) on a ticket. Alias for list_actions."
    } else if i == 17 {
        "Log time spent on a ticket. Time is recorded as an action/note entry."
    } else if i == 18 {
        "Edit the text of an existing action (note or reply) on a ticket."
    } else if i == 19 {
        "Delete an action (note or reply) from a ticket by its ID. Requires appropriate HaloPSA permissions."
    } else if i == 20 {
        "Get full details of a single action (note, reply, or transition) by its ID."
    } else if i == 21 {
        "Get the workflow actions available on a ticket's current step. Returns actions the authenticated user can execute."
    } else if i == 22 {
        "Execute a specific workflow action on a ticket, transitioning it to the next step. Use get_available_actions first to see valid options."
    } else if i == 23 {
        "List available statuses with their IDs. Pass status_type \"ticket\" to scope to ticket statuses only; omit for all statuses regardless of type."
    } else if i == 24 {
        "Get full configuration details for a single status (SLA hold behavior, email settings, colour, etc). Use list_statuses to find status IDs."
    } else if i == 25 {
        "Search across all entity types at once (tickets, clients, users, assets, etc). Good for a broad first look when you don't know what kind of record you're looking for."
    } else if i == 26 {
        "List custom field groups (collections of custom fields attached to request forms, e.g. 'Laptop Request', 'Leaver Details')."
    } else if i == 27 {
        "List invoices. Returns paginated results."
    } else if i == 28 {
        "List recurring invoices (billing templates that generate invoices on a schedule). Returns paginated results."
    } else if i == 29 {
        "Get full details of a single recurring invoice by ID, including its lines and linked credit notes."
    } else if i == 30 {
        "List charge types (Configuration > Billing > Charge Types) used to categorize billable ticket actions, e.g. 'SD - Remote Reactive Support', 'FIELD - Travel'."
    } else if i == 31 {
        "List individual billing line items (flattened from invoices). Returns paginated results. Endpoint unconfirmed against this sandbox — flag results as unverified."
    } else if i == 32 {
        "List all teams/queues the user has access to."
    } else {
        "List change history for assets (audit trail). Endpoint unconfirmed against this sandbox — flag results as unverified."
    }
}

/// Tool input schemas, part 1.
pub open spec fn halo_schema_0(i: int) -> JsonModel {
    if i == 0 {
        schema_list_tickets()
    } else if i == 1 {
        schema_get_ticket()
    } else if i == 2 {
        schema_create_ticket()
    } else if i == 3 {
        schema_update_ticket()
    } else if i == 4 {
        schema_search_tickets()
    } else if i == 5 {
        schema_list_open_tickets()
    } else if i == 6 {
        schema_list_tickets_by_client()
    } else if i == 7 {
        schema_list_high_priority_tickets()
    } else if i == 8 {
        schema_list_unassigned_tickets()
    } else if i == 9 {
        schema_list_my_tickets()
    } else if i == 10 {
        schema_list_actions()
    } else if i == 11 {
        schema_add_action()
    } else if i == 12 {
        schema_create_action()
    } else if i == 13 {
        schema_send_email_reply()
    } else if i == 14 {
        schema_add_internal_note()
    } else if i == 15 {
        schema_change_ticket_status_with_note()
    } else if i == 16 {
        schema_list_ticket_actions()
    } else if i == 17 {
        schema_log_time()
    } else if i == 18 {
        schema_update_action()
    } else if i == 19 {
        schema_delete_action()
    } else if i == 20 {
        schema_get_action()
    } else if i == 21 {
        schema_get_available_actions()
    } else if i == 22 {
        schema_execute_workflow_action()
    } else if i == 23 {
        schema_list_statuses()
    } else if i == 24 {
        schema_get_status_details()
    } else if i == 25 {
        schema_global_search()
    } else if i == 26 {
        schema_list_field_groups()
    } else if i == 27 {
        schema_list_invoices()
    } else if i == 28 {
        schema_list_recurring_invoices()
    } else if i == 29 {
        schema_get_recurring_invoice()
    } else if i == 30 {
        schema_list_charge_rates()
    } else if i == 31 {
        schema_list_billing_lines()
    } else if i == 32 {
        schema_list_teams()
    } else {
        schema_list_asset_changes()
    }
}

fn halo_schema_value_0(i: usize) -> (r: JsonValue)
    requires
        i < 34,
    ensures
        model(r) == halo_schema_0(i as int),
{
    if i == 0 {
        build_schema_list_tickets()
    } else if i == 1 {
        build_schema_get_ticket()
    } else if i == 2 {
        build_schema_create_ticket()
    } else if i == 3 {
        build_schema_update_ticket()
    } else if i == 4 {
        build_schema_search_tickets()
    } else if i == 5 {
        build_schema_list_open_tickets()
    } else if i == 6 {
        build_schema_list_tickets_by_client()
    } else if i == 7 {
        build_schema_list_high_priority_tickets()
    } else if i == 8 {
        build_schema_list_unassigned_tickets()
    } else if i == 9 {
        build_schema_list_my_tickets()
    } else if i == 10 {
        build_schema_list_actions()
    } else if i == 11 {
        build_schema_add_action()
    } else if i == 12 {
        build_schema_create_action()
    } else if i == 13 {
        build_schema_send_email_reply()
    } else if i == 14 {
        build_schema_add_internal_note()
    } else if i == 15 {
        build_schema_change_ticket_status_with_note()
    } else if i == 16 {
        build_schema_list_ticket_actions()
    } else if i == 17 {
        build_schema_log_time()
    } else if i == 18 {
        build_schema_update_action()
    } else if i == 19 {
        build_schema_delete_action()
    } else if i == 20 {
        build_schema_get_action()
    } else if i == 21 {
        build_schema_get_available_actions()
    } else if i == 22 {
        build_schema_execute_workflow_action()
    } else if i == 23 {
        build_schema_list_statuses()
    } else if i == 24 {
        build_schema_get_status_details()
    } else if i == 25 {
        build_schema_global_search()
    } else if i == 26 {
        build_schema_list_field_groups()
    } else if i == 27 {
        build_schema_list_invoices()
    } else if i == 28 {
        build_schema_list_recurring_invoices()
    } else if i == 29 {
        build_schema_get_recurring_invoice()
    } else if i == 30 {
        build_schema_list_charge_rates()
    } else if i == 31 {
        build_schema_list_billing_lines()
    } else if i == 32 {
        build_schema_list_teams()
    } else {
        build_schema_list_asset_changes()
    }
}

/// Tool names, part 2.
pub open spec fn halo_name_1(i: int) -> Seq<char> {
    if i == 0 {
        "create_invoice"@
    } else if i == 1 {
        "void_invoice"@
    } else if i == 2 {
        "list_suppliers"@
    } else if i == 3 {
        "get_supplier"@
    } else if i == 4 {
        "create_supplier"@
    } else if i == 5 {
        "create_supplier_user"@
    } else if i == 6 {
        "list_sales_orders"@
    } else if i == 7 {
        "get_sales_order"@
    } else if i == 8 {
        "create_sales_order"@
    } else if i == 9 {
        "get_audit_entry"@
    } else if i == 10 {
        "get_field"@
    } else if i == 11 {
        "get_pax8_data"@
    } else if i == 12 {
        "get_meraki_data"@
    } else if i == 13 {
        "import_from_xero"@
    } else if i == 14 {
        "list_approval_processes"@
    } else if i == 15 {
        "get_approval_process"@
    } else if i == 16 {
        "create_approval_process"@
    } else if i == 17 {
        "list_approval_rules"@
    } else if i == 18 {
        "create_approval_rule"@
    } else if i == 19 {
        "list_views"@
    } else if i == 20 {
        "get_view"@
    } else if i == 21 {
        "list_view_filters"@
    } else if i == 22 {
        "list_view_columns"@
    } else if i == 23 {
        "create_client"@
    } else if i == 24 {
        "list_invoice_payments"@
    } else if i == 25 {
        "list_workflows"@
    } else if i == 26 {
        "get_workflow"@
    } else if i == 27 {
        "create_workflow"@
    } else if i == 28 {
        "update_workflow"@
    } else if i == 29 {
        "delete_workflow"@
    } else if i == 30 {
        "list_notifications"@
    } else if i == 31 {
        "get_notification"@
    } else if i == 32 {
        "create_notification"@
    } else {
        "send_notification_message"@
    }
}

fn halo_name_str_1(i: usize) -> (r: &'static str)
    requires
        i < 34,
    ensures
        r@ == halo_name_1(i as int),
{
    if i == 0 {
        "create_invoice"
    } else if i == 1 {
        "void_invoice"
    } else if i == 2 {
        "list_suppliers"
    } else if i == 3 {
        "get_supplier"
    } else if i == 4 {
        "create_supplier"
    } else if i == 5 {
        "create_supplier_user"
    } else if i == 6 {
        "list_sales_orders"
    } else if i == 7 {
        "get_sales_order"
    } else if i == 8 {
        "create_sales_order"
    } else if i == 9 {
        "get_audit_entry"
    } else if i == 10 {
        "get_field"
    } else if i == 11 {
        "get_pax8_data"
    } else if i == 12 {
        "get_meraki_data"
    } else if i == 13 {
        "import_from_xero"
    } else if i == 14 {
        "list_approval_processes"
    } else if i == 15 {
        "get_approval_process"
    } else if i == 16 {
        "create_approval_process"
    } else if i == 17 {
        "list_approval_rules"
    } else if i == 18 {
        "create_approval_rule"
    } else if i == 19 {
        "list_views"
    } else if i == 20 {
        "get_view"
    } else if i == 21 {
        "list_view_filters"
    } else if i == 22 {
        "list_view_columns"
    } else if i == 23 {
        "create_client"
    } else if i == 24 {
        "list_invoice_payments"
    } else if i == 25 {
        "list_workflows"
    } else if i == 26 {
        "get_workflow"
    } else if i == 27 {
        "create_workflow"
    } else if i == 28 {
        "update_workflow"
    } else if i == 29 {
        "delete_workflow"
    } else if i == 30 {
        "list_notifications"
    } else if i == 31 {
        "get_notification"
    } else if i == 32 {
        "create_notification"
    } else {
        "send_notification_message"
    }
}

/// Tool descriptions, part 2.
pub open spec fn halo_description_1(i: int) -> Seq<char> {
    if i == 0 {
        "Create a new invoice. Reuses the same confirmed /api/Invoice base path as list_invoices/get_invoice. Confirmed against the live sandbox: invoice_date is required or HaloPSA rejects with 400 'Date Invoiced is mandatory'."@
    } else if i == 1 {
        "Void an existing invoice. WARNING: cannot be undone. Field name for voiding is guessed — unconfirmed against this sandbox."@
    } else if i == 2 {
        "List suppliers/vendors. Endpoint unconfirmed against this sandbox — flag results as unverified."@
    } else if i == 3 {
        "Get full details of a single supplier by ID. Endpoint unconfirmed against this sandbox — flag results as unverified."@
    } else if i == 4 {
        "Create a new supplier/vendor record. Endpoint unconfirmed against this sandbox — flag results as unverified."@
    } else if i == 5 {
        "Create a new supplier-side contact attached to a supplier. Confirmed against the live sandbox: emailaddress is required or HaloPSA rejects with 400 'Email Address is mandatory'."@
    } else if i == 6 {
        "List sales orders. Endpoint unconfirmed against this sandbox — flag results as unverified."@
    } else if i == 7 {
        "Get full details of a single sales order by ID. Endpoint unconfirmed against this sandbox — flag results as unverified."@
    } else if i == 8 {
        "Create a new sales order. Confirmed against the live sandbox: user_id (a valid contact on the client) is required or HaloPSA rejects with 400 'Please select a valid User'."@
    } else if i == 9 {
        "Get a single audit log entry by ID (before/after values, user, timestamp). Endpoint unconfirmed against this sandbox — flag results as unverified."@
    } else if i == 10 {
        "Get a single custom field definition by ID (name, data type, validation rules, dropdown options). Endpoint unconfirmed against this sandbox — flag results as unverified."@
    } else if i == 11 {
        "Retrieve Pax8 distributor data (subscriptions, products, companies) from a connected Pax8 integration. Endpoint guessed AND depends on integration authorization — check list_integration_configs first."@
    } else if i == 12 {
        "Retrieve Meraki network data from a connected Meraki integration. Endpoint guessed AND depends on integration authorization — check list_integration_configs first."@
    } else if i == 13 {
        "Trigger a data import sync from the connected Xero integration. WARNING: irreversibly syncs external data. Endpoint guessed — unconfirmed against this sandbox, never live-tested."@
    } else if i == 14 {
        "List approval processes (multi-step approval workflows for changes, purchases, etc). Endpoint unconfirmed against this sandbox — flag results as unverified."@
    } else if i == 15 {
        "Get full details of a single approval process by ID. Endpoint unconfirmed against this sandbox — flag results as unverified."@
    } else if i == 16 {
        "Create a new approval process. Endpoint unconfirmed against this sandbox — flag results as unverified."@
    } else if i == 17 {
        "List approval rules that define when approvals are triggered. Endpoint unconfirmed against this sandbox — flag results as unverified."@
    } else if i == 18 {
        "Create a new approval rule. Endpoint unconfirmed against this sandbox — flag results as unverified."@
    } else if i == 19 {
        "List saved views (pre-configured filter/column layouts) for a domain, e.g. tickets or opportunities. Confirmed against the agent UI's own request."@
    } else if i == 20 {
        "Get full details of a single saved view by ID. Endpoint guessed — unconfirmed against this sandbox (list_views itself is confirmed)."@
    } else if i == 21 {
        "List available filter definitions for a view domain. Confirmed against the agent UI's own request."@
    } else if i == 22 {
        "List available column definitions for a view type. Confirmed via sandbox capture (Edit Columns on a ticket list) — same params as list_view_filters."@
    } else if i == 23 {
        "Create a new client (customer organization). Reuses the same confirmed /api/Client base path as get_client/list_clients."@
    } else if i == 24 {
        "List payments recorded against invoices. Endpoint unconfirmed against this sandbox — flag results as unverified."@
    } else if i == 25 {
        "List workflows (multi-step processes for ticket handling). Uses the same base path as the already-confirmed get_available_actions/list_workflow_steps."@
    } else if i == 26 {
        "Get full details of a single workflow by ID. Uses the same confirmed endpoint as list_workflow_steps."@
    } else if i == 27 {
        "Create a new workflow. Endpoint unconfirmed against this sandbox for writes — flag results as unverified."@
    } else if i == 28 {
        "Update an existing workflow's fields. Confirmed limitation: HaloPSA validates the whole workflow structure on every update (not just the changed fields) and rejects with 400 'Please select a Start Step for this Workflow' unless a fully valid start step/stages/steps structure is present — a simple field-only partial update (even re-sending the existing stages array) is not enough. Fetch the full structure with get_workflow first if editing an existing workflow's stages/steps."@
    } else if i == 29 {
        "Delete a workflow by ID. WARNING: permanently removes it; active tickets using it may be affected. Endpoint unconfirmed against this sandbox."@
    } else if i == 30 {
        "List notification rule definitions. Endpoint unconfirmed against this sandbox — flag results as unverified."@
    } else if i == 31 {
        "Get a single notification rule by ID. Endpoint unconfirmed against this sandbox — flag results as unverified."@
    } else if i == 32 {
        "Create a new notification rule. Confirmed against the live sandbox: the rule's title field is `name` (not `subject`), and `eventno` (an integer trigger-event enum, e.g. 1 = New Ticket Logged) is required — HaloPSA rejects the request with 'Please select an event to trigger the Notification' without it. Use get_notification/list_notifications on an existing rule with the desired trigger to find the eventno value, since the enum isn't otherwise documented."@
    } else {
        "Send a direct notification message to an agent. Endpoint unconfirmed against this sandbox — flag results as unverified."@
    }
}

fn halo_description_str_1(i: usize) -> (r: &'static str)
    requires
        i < 34,
    ensures
        r@ == halo_description_1(i as int),
{
    if i == 0 {
        "Create a new invoice. Reuses the same confirmed /api/Invoice base path as list_invoices/get_invoice. Confirmed against the live sandbox: invoice_date is required or HaloPSA rejects with 400 'Date Invoiced is mandatory'."
    } else if i == 1 {
        "Void an existing invoice. WARNING: cannot be undone. Field name for voiding is guessed — unconfirmed against this sandbox."
    } else if i == 2 {
        "List suppliers/vendors. Endpoint unconfirmed against this sandbox — flag results as unverified."
    } else if i == 3 {
        "Get full details of a single supplier by ID. Endpoint unconfirmed against this sandbox — flag results as unverified."
    } else if i == 4 {
        "Create a new supplier/vendor record. Endpoint unconfirmed against this sandbox — flag results as unverified."
    } else if i == 5 {
        "Create a new supplier-side contact attached to a supplier. Confirmed against the live sandbox: emailaddress is required or HaloPSA rejects with 400 'Email Address is mandatory'."
    } else if i == 6 {
        "List sales orders. Endpoint unconfirmed against this sandbox — flag results as unverified."
    } else if i == 7 {
        "Get full details of a single sales order by ID. Endpoint unconfirmed against this sandbox — flag results as unverified."
    } else if i == 8 {
        "Create a new sales order. Confirmed against the live sandbox: user_id (a valid contact on the client) is required or HaloPSA rejects with 400 'Please select a valid User'."
    } else if i == 9 {
        "Get a single audit log entry by ID (before/after values, user, timestamp). Endpoint unconfirmed against this sandbox — flag results as unverified."
    } else if i == 10 {
        "Get a single custom field definition by ID (name, data type, validation rules, dropdown options). Endpoint unconfirmed against this sandbox — flag results as unverified."
    } else if i == 11 {
        "Retrieve Pax8 distributor data (subscriptions, products, companies) from a connected Pax8 integration. Endpoint guessed AND depends on integration authorization — check list_integration_configs first."
    } else if i == 12 {
        "Retrieve Meraki network data from a connected Meraki integration. Endpoint guessed AND depends on integration authorization — check list_integration_configs first."
    } else if i == 13 {
        "Trigger a data import sync from the connected Xero integration. WARNING: irreversibly syncs external data. Endpoint guessed — unconfirmed against this sandbox, never live-tested."
    } else if i == 14 {
        "List approval processes (multi-step approval workflows for changes, purchases, etc). Endpoint unconfirmed against this sandbox — flag results as unverified."
    } else if i == 15 {
        "Get full details of a single approval process by ID. Endpoint unconfirmed against this sandbox — flag results as unverified."
    } else if i == 16 {
        "Create a new approval process. Endpoint unconfirmed against this sandbox — flag results as unverified."
    } else if i == 17 {
        "List approval rules that define when approvals are triggered. Endpoint unconfirmed against this sandbox — flag results as unverified."
    } else if i == 18 {
        "Create a new approval rule. Endpoint unconfirmed against this sandbox — flag results as unverified."
    } else if i == 19 {
        "List saved views (pre-configured filter/column layouts) for a domain, e.g. tickets or opportunities. Confirmed against the agent UI's own request."
    } else if i == 20 {
        "Get full details of a single saved view by ID. Endpoint guessed — unconfirmed against this sandbox (list_views itself is confirmed)."
    } else if i == 21 {
        "List available filter definitions for a view domain. Confirmed against the agent UI's own request."
    } else if i == 22 {
        "List available column definitions for a view type. Confirmed via sandbox capture (Edit Columns on a ticket list) — same params as list_view_filters."
    } else if i == 23 {
        "Create a new client (customer organization). Reuses the same confirmed /api/Client base path as get_client/list_clients."
    } else if i == 24 {
        "List payments recorded against invoices. Endpoint unconfirmed against this sandbox — flag results as unverified."
    } else if i == 25 {
        "List workflows (multi-step processes for ticket handling). Uses the same base path as the already-confirmed get_available_actions/list_workflow_steps."
    } else if i == 26 {
        "Get full details of a single workflow by ID. Uses the same confirmed endpoint as list_workflow_steps."
    } else if i == 27 {
        "Create a new workflow. Endpoint unconfirmed against this sandbox for writes — flag results as unverified."
    } else if i == 28 {
        "Update an existing workflow's fields. Confirmed limitation: HaloPSA validates the whole workflow structure on every update (not just the changed fields) and rejects with 400 'Please select a Start Step for this Workflow' unless a fully valid start step/stages/steps structure is present — a simple field-only partial update (even re-sending the existing stages array) is not enough. Fetch the full structure with get_workflow first if editing an existing workflow's stages/steps."
    } else if i == 29 {
        "Delete a workflow by ID. WARNING: permanently removes it; active tickets using it may be affected. Endpoint unconfirmed against this sandbox."
    } else if i == 30 {
        "List notification rule definitions. Endpoint unconfirmed against this sandbox — flag results as unverified."
    } else if i == 31 {
        "Get a single notification rule by ID. Endpoint unconfirmed against this sandbox — flag results as unverified."
    } else if i == 32 {
        "Create a new notification rule. Confirmed against the live sandbox: the rule's title field is `name` (not `subject`), and `eventno` (an integer trigger-event enum, e.g. 1 = New Ticket Logged) is required — HaloPSA rejects the request with 'Please select an event to trigger the Notification' without it. Use get_notification/list_notifications on an existing rule with the desired trigger to find the eventno value, since the enum isn't otherwise documented."
    } else {
        "Send a direct notification message to an agent. Endpoint unconfirmed against this sandbox — flag results as unverified."
    }
}

/// Tool input schemas, part 2.
pub open spec fn halo_schema_1(i: int) -> JsonModel {
    if i == 0 {
        schema_create_invoice()
    } else if i == 1 {
        schema_void_invoice()
    } else if i == 2 {
        schema_list_suppliers()
    } else if i == 3 {
        schema_get_supplier()
    } else if i == 4 {
        schema_create_supplier()
    } else if i == 5 {
        schema_create_supplier_user()
    } else if i == 6 {
        schema_list_sales_orders()
    } else if i == 7 {
        schema_get_sales_order()
    } else if i == 8 {
        schema_create_sales_order()
    } else if i == 9 {
        schema_get_audit_entry()
    } else if i == 10 {
        schema_get_field()
    } else if i == 11 {
        schema_get_pax8_data()
    } else if i == 12 {
        schema_get_meraki_data()
    } else if i == 13 {
        schema_import_from_xero()
    } else if i == 14 {
        schema_list_approval_processes()
    } else if i == 15 {
        schema_get_approval_process()
    } else if i == 16 {
        schema_create_approval_process()
    } else if i == 17 {
        schema_list_approval_rules()
    } else if i == 18 {
        schema_create_approval_rule()
    } else if i == 19 {
        schema_list_views()
    } else if i == 20 {
        schema_get_view()
    } else if i == 21 {
        schema_list_view_filters()
    } else if i == 22 {
        schema_list_view_columns()
    } else if i == 23 {
        schema_create_client()
    } else if i == 24 {
        schema_list_invoice_payments()
    } else if i == 25 {
        schema_list_workflows()
    } else if i == 26 {
        schema_get_workflow()
    } else if i == 27 {
        schema_create_workflow()
    } else if i == 28 {
        schema_update_workflow()
    } else if i == 29 {
        schema_delete_workflow()
    } else if i == 30 {
        schema_list_notifications()
    } else if i == 31 {
        schema_get_notification()
    } else if i == 32 {
        schema_create_notification()
    } else {
        schema_send_notification_message()
    }
}

fn halo_schema_value_1(i: usize) -> (r: JsonValue)
    requires
        i < 34,
    ensures
        model(r) == halo_schema_1(i as int),
{
    if i == 0 {
        build_schema_create_invoice()
    } else if i == 1 {
        build_schema_void_invoice()
    } else if i == 2 {
        build_schema_list_suppliers()
    } else if i == 3 {
        build_schema_get_supplier()
    } else if i == 4 {
        build_schema_create_supplier()
    } else if i == 5 {
        build_schema_create_supplier_user()
    } else if i == 6 {
        build_schema_list_sales_orders()
    } else if i == 7 {
        build_schema_get_sales_order()
    } else if i == 8 {
        build_schema_create_sales_order()
    } else if i == 9 {
        build_schema_get_audit_entry()
    } else if i == 10 {
        build_schema_get_field()
    } else if i == 11 {
        build_schema_get_pax8_data()
    } else if i == 12 {
        build_schema_get_meraki_data()
    } else if i == 13 {
        build_schema_import_from_xero()
    } else if i == 14 {
        build_schema_list_approval_processes()
    } else if i == 15 {
        build_schema_get_approval_process()
    } else if i == 16 {
        build_schema_create_approval_process()
    } else if i == 17 {
        build_schema_list_approval_rules()
    } else if i == 18 {
        build_schema_create_approval_rule()
    } else if i == 19 {
        build_schema_list_views()
    } else if i == 20 {
        build_schema_get_view()
    } else if i == 21 {
        build_schema_list_view_filters()
    } else if i == 22 {
        build_schema_list_view_columns()
    } else if i == 23 {
        build_schema_create_client()
    } else if i == 24 {
        build_schema_list_invoice_payments()
    } else if i == 25 {
        build_schema_list_workflows()
    } else if i == 26 {
        build_schema_get_workflow()
    } else if i == 27 {
        build_schema_create_workflow()
    } else if i == 28 {
        build_schema_update_workflow()
    } else if i == 29 {
        build_schema_delete_workflow()
    } else if i == 30 {
        build_schema_list_notifications()
    } else if i == 31 {
        build_schema_get_notification()
    } else if i == 32 {
        build_schema_create_notification()
    } else {
        build_schema_send_notification_message()
    }
}

/// Tool names, part 3.
pub open spec fn halo_name_2(i: int) -> Seq<char> {
    if i == 0 {
        "list_services"@
    } else if i == 1 {
        "get_service"@
    } else if i == 2 {
        "list_service_categories"@
    } else if i == 3 {
        "list_service_statuses"@
    } else if i == 4 {
        "create_service_status"@
    } else if i == 5 {
        "list_invoice_statuses"@
    } else if i == 6 {
        "get_invoice_status"@
    } else if i == 7 {
        "create_invoice_status"@
    } else if i == 8 {
        "delete_invoice_status"@
    } else if i == 9 {
        "update_invoice_lines"@
    } else if i == 10 {
        "update_sales_order_lines"@
    } else if i == 11 {
        "register_invoice_view"@
    } else if i == 12 {
        "register_sales_order_view"@
    } else if i == 13 {
        "register_purchase_order_view"@
    } else if i == 14 {
        "register_kb_article_view"@
    } else if i == 15 {
        "review_expense"@
    } else if i == 16 {
        "expire_client_prepay"@
    } else if i == 17 {
        "list_integration_configs"@
    } else if i == 18 {
        "get_integration_config"@
    } else if i == 19 {
        "list_integration_site_mappings"@
    } else if i == 20 {
        "list_integration_errors"@
    } else if i == 21 {
        "get_integration_error"@
    } else if i == 22 {
        "list_integration_requests"@
    } else if i == 23 {
        "get_integration_request"@
    } else if i == 24 {
        "list_integration_field_mappings"@
    } else if i == 25 {
        "get_microsoft_csp_data"@
    } else if i == 26 {
        "get_intune_data"@
    } else if i == 27 {
        "get_azure_ad_data"@
    } else if i == 28 {
        "get_ninja_rmm_data"@
    } else if i == 29 {
        "get_xero_data"@
    } else if i == 30 {
        "list_xero_details"@
    } else if i == 31 {
        "get_xero_detail"@
    } else if i == 32 {
        "send_invoice_to_xero"@
    } else {
        "create_asset"@
    }
}

fn halo_name_str_2(i: usize) -> (r: &'static str)
    requires
        i < 34,
    ensures
        r@ == halo_name_2(i as int),
{
    if i == 0 {
        "list_services"
    } else if i == 1 {
        "get_service"
    } else if i == 2 {
        "list_service_categories"
    } else if i == 3 {
        "list_service_statuses"
    } else if i == 4 {
        "create_service_status"
    } else if i == 5 {
        "list_invoice_statuses"
    } else if i == 6 {
        "get_invoice_status"
    } else if i == 7 {
        "create_invoice_status"
    } else if i == 8 {
        "delete_invoice_status"
    } else if i == 9 {
        "update_invoice_lines"
    } else if i == 10 {
        "update_sales_order_lines"
    } else if i == 11 {
        "register_invoice_view"
    } else if i == 12 {
        "register_sales_order_view"
    } else if i == 13 {
        "register_purchase_order_view"
    } else if i == 14 {
        "register_kb_article_view"
    } else if i == 15 {
        "review_expense"
    } else if i == 16 {
        "expire_client_prepay"
    } else if i == 17 {
        "list_integration_configs"
    } else if i == 18 {
        "get_integration_config"
    } else if i == 19 {
        "list_integration_site_mappings"
    } else if i == 20 {
        "list_integration_errors"
    } else if i == 21 {
        "get_integration_error"
    } else if i == 22 {
        "list_integration_requests"
    } else if i == 23 {
        "get_integration_request"
    } else if i == 24 {
        "list_integration_field_mappings"
    } else if i == 25 {
        "get_microsoft_csp_data"
    } else if i == 26 {
        "get_intune_data"
    } else if i == 27 {
        "get_azure_ad_data"
    } else if i == 28 {
        "get_ninja_rmm_data"
    } else if i == 29 {
        "get_xero_data"
    } else if i == 30 {
        "list_xero_details"
    } else if i == 31 {
        "get_xero_detail"
    } else if i == 32 {
        "send_invoice_to_xero"
    } else {
        "create_asset"
    }
}

/// Tool descriptions, part 3.
pub open spec fn halo_description_2(i: int) -> Seq<char> {
    if i == 0 {
        "List services in the service catalogue. Endpoint unconfirmed against this sandbox — flag results as unverified."@
    } else if i == 1 {
        "Get full details of a single service by ID. Endpoint unconfirmed against this sandbox — flag results as unverified."@
    } else if i == 2 {
        "List service catalogue categories. Endpoint unconfirmed against this sandbox — flag results as unverified."@
    } else if i == 3 {
        "List service status history, optionally for a specific service. Endpoint unconfirmed against this sandbox — flag results as unverified."@
    } else if i == 4 {
        "Record a new service status entry (operational, degraded, outage). Endpoint unconfirmed against this sandbox — flag results as unverified."@
    } else if i == 5 {
        "List invoice statuses (e.g. Draft, Approved, Posted, Paid). Endpoint unconfirmed against this sandbox — flag results as unverified."@
    } else if i == 6 {
        "Get a single invoice status by ID. Endpoint unconfirmed against this sandbox — flag results as unverified."@
    } else if i == 7 {
        "Create a new invoice status. Confirmed against the live sandbox: the name field is status_name (not name), and type (an int stage enum: 0=Draft-like, 1=Awaiting Approval, 2=Approved, 3=Posted, 4=Sent, 5=Paid, 6=Voided, 7=Closed) is required — omitting it triggers a raw SQL NOT NULL error from HaloPSA (500-shaped 400: \"Cannot insert the value NULL into column 'ISType'\")."@
    } else if i == 8 {
        "Delete an invoice status by ID. Endpoint unconfirmed against this sandbox — flag results as unverified."@
    } else if i == 9 {
        "Bulk-update invoice line items. Endpoint unconfirmed against this sandbox — flag results as unverified."@
    } else if i == 10 {
        "Bulk-update sales order line items. Endpoint unconfirmed against this sandbox — flag results as unverified."@
    } else if i == 11 {
        "Record that a user has viewed an invoice. Endpoint unconfirmed against this sandbox — flag results as unverified."@
    } else if i == 12 {
        "Record that a user has viewed a sales order. Endpoint unconfirmed against this sandbox — flag results as unverified."@
    } else if i == 13 {
        "Record that a user has viewed a purchase order. Endpoint unconfirmed against this sandbox — flag results as unverified."@
    } else if i == 14 {
        "Record that a user has viewed a knowledge base article. Endpoint unconfirmed against this sandbox — flag results as unverified."@
    } else if i == 15 {
        "Mark one or more expenses as reviewed. Financial approval action. Endpoint and body shape guessed — unconfirmed against this sandbox, never live-tested."@
    } else if i == 16 {
        "Expire one or more client prepay balances. WARNING: voids remaining prepaid credit. Endpoint and body shape guessed — unconfirmed against this sandbox, never live-tested."@
    } else if i == 17 {
        "List all configured third-party integrations with their connection status. Endpoint path unconfirmed against this sandbox (real field shape confirmed via StackJack reference)."@
    } else if i == 18 {
        "Get full details of a single integration config by ID. Endpoint unconfirmed against this sandbox — flag results as unverified."@
    } else if i == 19 {
        "List site mappings between Halo and a connected third-party integration. Endpoint unconfirmed against this sandbox — flag results as unverified."@
    } else if i == 20 {
        "List integration sync errors, for troubleshooting failed third-party syncs. Endpoint unconfirmed against this sandbox — flag results as unverified."@
    } else if i == 21 {
        "Get full details of a single integration error by ID. Endpoint unconfirmed against this sandbox — flag results as unverified."@
    } else if i == 22 {
        "List integration API request/response logs. Endpoint unconfirmed against this sandbox — flag results as unverified."@
    } else if i == 23 {
        "Get full details of a single integration request log entry by ID. Endpoint unconfirmed against this sandbox — flag results as unverified."@
    } else if i == 24 {
        "List field mappings between Halo and a connected third-party integration. Endpoint unconfirmed against this sandbox — flag results as unverified."@
    } else if i == 25 {
        "Retrieve Microsoft CSP data (subscriptions, licences, tenants) from a connected Microsoft Partner Center integration. Highest-uncertainty tool in this batch — endpoint guessed AND depends on whether this integration is actually authorized on the target tenant (check list_integration_configs first)."@
    } else if i == 26 {
        "Retrieve Microsoft Intune data (devices, compliance policies, apps) from a connected Intune integration. Endpoint guessed AND depends on integration authorization — check list_integration_configs first."@
    } else if i == 27 {
        "Retrieve Azure AD/Entra ID data (users, groups, licences) from a connected Azure AD integration. Endpoint guessed AND depends on integration authorization — check list_integration_configs first."@
    } else if i == 28 {
        "Retrieve NinjaOne (formerly NinjaRMM) data from a connected NinjaOne integration — confirmed active in this sandbox via Config > Integrations."@
    } else if i == 29 {
        "Retrieve Xero accounting data (invoices, contacts, payments) from a connected Xero integration. Endpoint guessed AND depends on integration authorization — check list_integration_configs first."@
    } else if i == 30 {
        "List Xero sync detail records. Endpoint unconfirmed against this sandbox — flag results as unverified."@
    } else if i == 31 {
        "Get a single Xero sync detail record by ID. Endpoint unconfirmed against this sandbox — flag results as unverified."@
    } else if i == 32 {
        "Push an invoice to the connected Xero accounting integration. Endpoint guessed — unconfirmed against this sandbox, never live-tested."@
    } else {
        "Create a new asset. Reuses the same confirmed /api/Asset base path as get_asset/list_assets."@
    }
}

fn halo_description_str_2(i: usize) -> (r: &'static str)
    requires
        i < 34,
    ensures
        r@ == halo_description_2(i as int),
{
    if i == 0 {
        "List services in the service catalogue. Endpoint unconfirmed against this sandbox — flag results as unverified."
    } else if i == 1 {
        "Get full details of a single service by ID. Endpoint unconfirmed against this sandbox — flag results as unverified."
    } else if i == 2 {
        "List service catalogue categories. Endpoint unconfirmed against this sandbox — flag results as unverified."
    } else if i == 3 {
        "List service status history, optionally for a specific service. Endpoint unconfirmed against this sandbox — flag results as unverified."
    } else if i == 4 {
        "Record a new service status entry (operational, degraded, outage). Endpoint unconfirmed against this sandbox — flag results as unverified."
    } else if i == 5 {
        "List invoice statuses (e.g. Draft, Approved, Posted, Paid). Endpoint unconfirmed against this sandbox — flag results as unverified."
    } else if i == 6 {
        "Get a single invoice status by ID. Endpoint unconfirmed against this sandbox — flag results as unverified."
    } else if i == 7 {
        "Create a new invoice status. Confirmed against the live sandbox: the name field is status_name (not name), and type (an int stage enum: 0=Draft-like, 1=Awaiting Approval, 2=Approved, 3=Posted, 4=Sent, 5=Paid, 6=Voided, 7=Closed) is required — omitting it triggers a raw SQL NOT NULL error from HaloPSA (500-shaped 400: \"Cannot insert the value NULL into column 'ISType'\")."
    } else if i == 8 {
        "Delete an invoice status by ID. Endpoint unconfirmed against this sandbox — flag results as unverified."
    } else if i == 9 {
        "Bulk-update invoice line items. Endpoint unconfirmed against this sandbox — flag results as unverified."
    } else if i == 10 {
        "Bulk-update sales order line items. Endpoint unconfirmed against this sandbox — flag results as unverified."
    } else if i == 11 {
        "Record that a user has viewed an invoice. Endpoint unconfirmed against this sandbox — flag results as unverified."
    } else if i == 12 {
        "Record that a user has viewed a sales order. Endpoint unconfirmed against this sandbox — flag results as unverified."
    } else if i == 13 {
        "Record that a user has viewed a purchase order. Endpoint unconfirmed against this sandbox — flag results as unverified."
    } else if i == 14 {
        "Record that a user has viewed a knowledge base article. Endpoint unconfirmed against this sandbox — flag results as unverified."
    } else if i == 15 {
        "Mark one or more expenses as reviewed. Financial approval action. Endpoint and body shape guessed — unconfirmed against this sandbox, never live-tested."
    } else if i == 16 {
        "Expire one or more client prepay balances. WARNING: voids remaining prepaid credit. Endpoint and body shape guessed — unconfirmed against this sandbox, never live-tested."
    } else if i == 17 {
        "List all configured third-party integrations with their connection status. Endpoint path unconfirmed against this sandbox (real field shape confirmed via StackJack reference)."
    } else if i == 18 {
        "Get full details of a single integration config by ID. Endpoint unconfirmed against this sandbox — flag results as unverified."
    } else if i == 19 {
        "List site mappings between Halo and a connected third-party integration. Endpoint unconfirmed against this sandbox — flag results as unverified."
    } else if i == 20 {
        "List integration sync errors, for troubleshooting failed third-party syncs. Endpoint unconfirmed against this sandbox — flag results as unverified."
    } else if i == 21 {
        "Get full details of a single integration error by ID. Endpoint unconfirmed against this sandbox — flag results as unverified."
    } else if i == 22 {
        "List integration API request/response logs. Endpoint unconfirmed against this sandbox — flag results as unverified."
    } else if i == 23 {
        "Get full details of a single integration request log entry by ID. Endpoint unconfirmed against this sandbox — flag results as unverified."
    } else if i == 24 {
        "List field mappings between Halo and a connected third-party integration. Endpoint unconfirmed against this sandbox — flag results as unverified."
    } else if i == 25 {
        "Retrieve Microsoft CSP data (subscriptions, licences, tenants) from a connected Microsoft Partner Center integration. Highest-uncertainty tool in this batch — endpoint guessed AND depends on whether this integration is actually authorized on the target tenant (check list_integration_configs first)."
    } else if i == 26 {
        "Retrieve Microsoft Intune data (devices, compliance policies, apps) from a connected Intune integration. Endpoint guessed AND depends on integration authorization — check list_integration_configs first."
    } else if i == 27 {
        "Retrieve Azure AD/Entra ID data (users, groups, licences) from a connected Azure AD integration. Endpoint guessed AND depends on integration authorization — check list_integration_configs first."
    } else if i == 28 {
        "Retrieve NinjaOne (formerly NinjaRMM) data from a connected NinjaOne integration — confirmed active in this sandbox via Config > Integrations."
    } else if i == 29 {
        "Retrieve Xero accounting data (invoices, contacts, payments) from a connected Xero integration. Endpoint guessed AND depends on integration authorization — check list_integration_configs first."
    } else if i == 30 {
        "List Xero sync detail records. Endpoint unconfirmed against this sandbox — flag results as unverified."
    } else if i == 31 {
        "Get a single Xero sync detail record by ID. Endpoint unconfirmed against this sandbox — flag results as unverified."
    } else if i == 32 {
        "Push an invoice to the connected Xero accounting integration. Endpoint guessed — unconfirmed against this sandbox, never live-tested."
    } else {
        "Create a new asset. Reuses the same confirmed /api/Asset base path as get_asset/list_assets."
    }
}

/// Tool input schemas, part 3.
pub open spec fn halo_schema_2(i: int) -> JsonModel {
    if i == 0 {
        schema_list_services()
    } else if i == 1 {
        schema_get_service()
    } else if i == 2 {
        schema_list_service_categories()
    } else if i == 3 {
        schema_list_service_statuses()
    } else if i == 4 {
        schema_create_service_status()
    } else if i == 5 {
        schema_list_invoice_statuses()
    } else if i == 6 {
        schema_get_invoice_status()
    } else if i == 7 {
        schema_create_invoice_status()
    } else if i == 8 {
        schema_delete_invoice_status()
    } else if i == 9 {
        schema_update_invoice_lines()
    } else if i == 10 {
        schema_update_sales_order_lines()
    } else if i == 11 {
        schema_register_invoice_view()
    } else if i == 12 {
        schema_register_sales_order_view()
    } else if i == 13 {
        schema_register_purchase_order_view()
    } else if i == 14 {
        schema_register_kb_article_view()
    } else if i == 15 {
        schema_review_expense()
    } else if i == 16 {
        schema_expire_client_prepay()
    } else if i == 17 {
        schema_list_integration_configs()
    } else if i == 18 {
        schema_get_integration_config()
    } else if i == 19 {
        schema_list_integration_site_mappings()
    } else if i == 20 {
        schema_list_integration_errors()
    } else if i == 21 {
        schema_get_integration_error()
    } else if i == 22 {
        schema_list_integration_requests()
    } else if i == 23 {
        schema_get_integration_request()
    } else if i == 24 {
        schema_list_integration_field_mappings()
    } else if i == 25 {
        schema_get_microsoft_csp_data()
    } else if i == 26 {
        schema_get_intune_data()
    } else if i == 27 {
        schema_get_azure_ad_data()
    } else if i == 28 {
        schema_get_ninja_rmm_data()
    } else if i == 29 {
        schema_get_xero_data()
    } else if i == 30 {
        schema_list_xero_details()
    } else if i == 31 {
        schema_get_xero_detail()
    } else if i == 32 {
        schema_send_invoice_to_xero()
    } else {
        schema_create_asset()
    }
}

fn halo_schema_value_2(i: usize) -> (r: JsonValue)
    requires
        i < 34,
    ensures
        model(r) == halo_schema_2(i as int),
{
    if i == 0 {
        build_schema_list_services()
    } else if i == 1 {
        build_schema_get_service()
    } else if i == 2 {
        build_schema_list_service_categories()
    } else if i == 3 {
        build_schema_list_service_statuses()
    } else if i == 4 {
        build_schema_create_service_status()
    } else if i == 5 {
        build_schema_list_invoice_statuses()
    } else if i == 6 {
        build_schema_get_invoice_status()
    } else if i == 7 {
        build_schema_create_invoice_status()
    } else if i == 8 {
        build_schema_delete_invoice_status()
    } else if i == 9 {
        build_schema_update_invoice_lines()
    } else if i == 10 {
        build_schema_update_sales_order_lines()
    } else if i == 11 {
        build_schema_register_invoice_view()
    } else if i == 12 {
        build_schema_register_sales_order_view()
    } else if i == 13 {
        build_schema_register_purchase_order_view()
    } else if i == 14 {
        build_schema_register_kb_article_view()
    } else if i == 15 {
        build_schema_review_expense()
    } else if i == 16 {
        build_schema_expire_client_prepay()
    } else if i == 17 {
        build_schema_list_integration_configs()
    } else if i == 18 {
        build_schema_get_integration_config()
    } else if i == 19 {
        build_schema_list_integration_site_mappings()
    } else if i == 20 {
        build_schema_list_integration_errors()
    } else if i == 21 {
        build_schema_get_integration_error()
    } else if i == 22 {
        build_schema_list_integration_requests()
    } else if i == 23 {
        build_schema_get_integration_request()
    } else if i == 24 {
        build_schema_list_integration_field_mappings()
    } else if i == 25 {
        build_schema_get_microsoft_csp_data()
    } else if i == 26 {
        build_schema_get_intune_data()
    } else if i == 27 {
        build_schema_get_azure_ad_data()
    } else if i == 28 {
        build_schema_get_ninja_rmm_data()
    } else if i == 29 {
        build_schema_get_xero_data()
    } else if i == 30 {
        build_schema_list_xero_details()
    } else if i == 31 {
        build_schema_get_xero_detail()
    } else if i == 32 {
        build_schema_send_invoice_to_xero()
    } else {
        build_schema_create_asset()
    }
}

/// Tool names, part 4.
pub open spec fn halo_name_3(i: int) -> Seq<char> {
    if i == 0 {
        "update_asset"@
    } else if i == 1 {
        "list_asset_software"@
    } else if i == 2 {
        "list_roles"@
    } else if i == 3 {
        "get_role"@
    } else if i == 4 {
        "create_role"@
    } else if i == 5 {
        "update_role"@
    } else if i == 6 {
        "delete_role"@
    } else if i == 7 {
        "list_tags"@
    } else if i == 8 {
        "get_tag"@
    } else if i == 9 {
        "create_tag"@
    } else if i == 10 {
        "delete_tag"@
    } else if i == 11 {
        "list_item_groups"@
    } else if i == 12 {
        "get_item_group"@
    } else if i == 13 {
        "create_item_group"@
    } else if i == 14 {
        "delete_item_group"@
    } else if i == 15 {
        "list_items"@
    } else if i == 16 {
        "get_item"@
    } else if i == 17 {
        "create_item"@
    } else if i == 18 {
        "list_item_stock"@
    } else if i == 19 {
        "list_products"@
    } else if i == 20 {
        "get_product"@
    } else if i == 21 {
        "create_product"@
    } else if i == 22 {
        "delete_product"@
    } else if i == 23 {
        "list_product_components"@
    } else if i == 24 {
        "create_product_component"@
    } else if i == 25 {
        "list_quotations"@
    } else if i == 26 {
        "get_quotation"@
    } else if i == 27 {
        "create_quotation"@
    } else if i == 28 {
        "update_quotation_lines"@
    } else if i == 29 {
        "approve_quotation"@
    } else if i == 30 {
        "view_quotation"@
    } else if i == 31 {
        "list_timesheets"@
    } else if i == 32 {
        "get_my_timesheets"@
    } else {
        "get_timesheet"@
    }
}

fn halo_name_str_3(i: usize) -> (r: &'static str)
    requires
        i < 34,
    ensures
        r@ == halo_name_3(i as int),
{
    if i == 0 {
        "update_asset"
    } else if i == 1 {
        "list_asset_software"
    } else if i == 2 {
        "list_roles"
    } else if i == 3 {
        "get_role"
    } else if i == 4 {
        "create_role"
    } else if i == 5 {
        "update_role"
    } else if i == 6 {
        "delete_role"
    } else if i == 7 {
        "list_tags"
    } else if i == 8 {
        "get_tag"
    } else if i == 9 {
        "create_tag"
    } else if i == 10 {
        "delete_tag"
    } else if i == 11 {
        "list_item_groups"
    } else if i == 12 {
        "get_item_group"
    } else if i == 13 {
        "create_item_group"
    } else if i == 14 {
        "delete_item_group"
    } else if i == 15 {
        "list_items"
    } else if i == 16 {
        "get_item"
    } else if i == 17 {
        "create_item"
    } else if i == 18 {
        "list_item_stock"
    } else if i == 19 {
        "list_products"
    } else if i == 20 {
        "get_product"
    } else if i == 21 {
        "create_product"
    } else if i == 22 {
        "delete_product"
    } else if i == 23 {
        "list_product_components"
    } else if i == 24 {
        "create_product_component"
    } else if i == 25 {
        "list_quotations"
    } else if i == 26 {
        "get_quotation"
    } else if i == 27 {
        "create_quotation"
    } else if i == 28 {
        "update_quotation_lines"
    } else if i == 29 {
        "approve_quotation"
    } else if i == 30 {
        "view_quotation"
    } else if i == 31 {
        "list_timesheets"
    } else if i == 32 {
        "get_my_timesheets"
    } else {
        "get_timesheet"
    }
}

/// Tool descriptions, part 4.
pub open spec fn halo_description_3(i: int) -> Seq<char> {
    if i == 0 {
        "Update an existing asset's fields. Reuses the same confirmed /api/Asset base path as get_asset/list_assets."@
    } else if i == 1 {
        "List software discovered on a specific asset. Confirmed via sandbox capture — there's no standalone software resource, this reads the software inventory embedded in the asset's own record."@
    } else if i == 2 {
        "List access-control roles. Endpoint unconfirmed against this sandbox — flag results as unverified."@
    } else if i == 3 {
        "Get full details of a single role by ID. Endpoint unconfirmed against this sandbox — flag results as unverified."@
    } else if i == 4 {
        "Create a new access-control role. Endpoint unconfirmed against this sandbox — flag results as unverified."@
    } else if i == 5 {
        "Update an existing role's fields. Endpoint unconfirmed against this sandbox — flag results as unverified."@
    } else if i == 6 {
        "Delete a role by ID. WARNING: permanently removes it; agents assigned this role may lose permissions. Endpoint unconfirmed against this sandbox."@
    } else if i == 7 {
        "List tags used to categorize tickets, assets, clients, etc."@
    } else if i == 8 {
        "Get a single tag by ID. Endpoint unconfirmed against this sandbox — flag results as unverified."@
    } else if i == 9 {
        "Create a new tag. Endpoint unconfirmed against this sandbox — flag results as unverified."@
    } else if i == 10 {
        "Delete a tag by ID. WARNING: permanently removes it and detaches it from all records. Endpoint unconfirmed against this sandbox."@
    } else if i == 11 {
        "List item groups/categories used to organise the product catalogue. Endpoint unconfirmed against this sandbox — flag results as unverified."@
    } else if i == 12 {
        "Get a single item group by ID. Endpoint unconfirmed against this sandbox — flag results as unverified."@
    } else if i == 13 {
        "Create a new item group. Endpoint unconfirmed against this sandbox — flag results as unverified."@
    } else if i == 14 {
        "Delete an item group by ID. Items in the group are not deleted, only ungrouped. Endpoint unconfirmed against this sandbox."@
    } else if i == 15 {
        "List catalogue items (products/parts used in quotations, invoices, purchase orders). Endpoint unconfirmed against this sandbox — flag results as unverified."@
    } else if i == 16 {
        "Get a single catalogue item by ID. Endpoint unconfirmed against this sandbox — flag results as unverified."@
    } else if i == 17 {
        "Create a new catalogue item. Confirmed against the live sandbox and the Halo API docs (/apidoc/resources/items): requires assetgroup_id (an Item Group's ID, from create_item_group/list_item_groups — despite the name, it is not an Asset Group), and the price field is baseprice, not unit_price."@
    } else if i == 18 {
        "List stock levels for catalogue items. Endpoint unconfirmed against this sandbox — flag results as unverified."@
    } else if i == 19 {
        "List products (sellable bundles). Endpoint unconfirmed against this sandbox — flag results as unverified."@
    } else if i == 20 {
        "Get a single product by ID. Endpoint unconfirmed against this sandbox — flag results as unverified."@
    } else if i == 21 {
        "Create a new product. Endpoint unconfirmed against this sandbox — flag results as unverified."@
    } else if i == 22 {
        "Delete a product by ID. Endpoint unconfirmed against this sandbox — flag results as unverified."@
    } else if i == 23 {
        "List the components (items) that make up a product bundle. Endpoint unconfirmed against this sandbox — flag results as unverified."@
    } else if i == 24 {
        "Add a component (item) to a product bundle. Endpoint unconfirmed against this sandbox — flag results as unverified."@
    } else if i == 25 {
        "List quotations/quotes. Returns paginated results. Endpoint unconfirmed against this sandbox — flag results as unverified."@
    } else if i == 26 {
        "Get full details of a single quotation by ID, including line items. Endpoint unconfirmed against this sandbox — flag results as unverified."@
    } else if i == 27 {
        "Create a new quotation. Confirmed against the live sandbox: user_id (a valid contact on the client, from list_users) is required or HaloPSA rejects with 400 'Please select a valid User'."@
    } else if i == 28 {
        "Update line items on an existing quotation. Endpoint unconfirmed against this sandbox — flag results as unverified."@
    } else if i == 29 {
        "Approve or reject a quotation. May trigger downstream invoice/sales order creation. Endpoint unconfirmed against this sandbox."@
    } else if i == 30 {
        "Get a presentation-ready view of a quotation (same data as get_quotation — no distinct rendered-view endpoint was found)."@
    } else if i == 31 {
        "List timesheet entries across agents. Endpoint unconfirmed against this sandbox — flag results as unverified."@
    } else if i == 32 {
        "Get timesheet entries for the currently authenticated agent. Endpoint unconfirmed against this sandbox — flag results as unverified."@
    } else {
        "Get a single timesheet entry by ID. Endpoint unconfirmed against this sandbox — flag results as unverified."@
    }
}

fn halo_description_str_3(i: usize) -> (r: &'static str)
    requires
        i < 34,
    ensures
        r@ == halo_description_3(i as int),
{
    if i == 0 {
        "Update an existing asset's fields. Reuses the same confirmed /api/Asset base path as get_asset/list_assets."
    } else if i == 1 {
        "List software discovered on a specific asset. Confirmed via sandbox capture — there's no standalone software resource, this reads the software inventory embedded in the asset's own record."
    } else if i == 2 {
        "List access-control roles. Endpoint unconfirmed against this sandbox — flag results as unverified."
    } else if i == 3 {
        "Get full details of a single role by ID. Endpoint unconfirmed against this sandbox — flag results as unverified."
    } else if i == 4 {
        "Create a new access-control role. Endpoint unconfirmed against this sandbox — flag results as unverified."
    } else if i == 5 {
        "Update an existing role's fields. Endpoint unconfirmed against this sandbox — flag results as unverified."
    } else if i == 6 {
        "Delete a role by ID. WARNING: permanently removes it; agents assigned this role may lose permissions. Endpoint unconfirmed against this sandbox."
    } else if i == 7 {
        "List tags used to categorize tickets, assets, clients, etc."
    } else if i == 8 {
        "Get a single tag by ID. Endpoint unconfirmed against this sandbox — flag results as unverified."
    } else if i == 9 {
        "Create a new tag. Endpoint unconfirmed against this sandbox — flag results as unverified."
    } else if i == 10 {
        "Delete a tag by ID. WARNING: permanently removes it and detaches it from all records. Endpoint unconfirmed against this sandbox."
    } else if i == 11 {
        "List item groups/categories used to organise the product catalogue. Endpoint unconfirmed against this sandbox — flag results as unverified."
    } else if i == 12 {
        "Get a single item group by ID. Endpoint unconfirmed against this sandbox — flag results as unverified."
    } else if i == 13 {
        "Create a new item group. Endpoint unconfirmed against this sandbox — flag results as unverified."
    } else if i == 14 {
        "Delete an item group by ID. Items in the group are not deleted, only ungrouped. Endpoint unconfirmed against this sandbox."
    } else if i == 15 {
        "List catalogue items (products/parts used in quotations, invoices, purchase orders). Endpoint unconfirmed against this sandbox — flag results as unverified."
    } else if i == 16 {
        "Get a single catalogue item by ID. Endpoint unconfirmed against this sandbox — flag results as unverified."
    } else if i == 17 {
        "Create a new catalogue item. Confirmed against the live sandbox and the Halo API docs (/apidoc/resources/items): requires assetgroup_id (an Item Group's ID, from create_item_group/list_item_groups — despite the name, it is not an Asset Group), and the price field is baseprice, not unit_price."
    } else if i == 18 {
        "List stock levels for catalogue items. Endpoint unconfirmed against this sandbox — flag results as unverified."
    } else if i == 19 {
        "List products (sellable bundles). Endpoint unconfirmed against this sandbox — flag results as unverified."
    } else if i == 20 {
        "Get a single product by ID. Endpoint unconfirmed against this sandbox — flag results as unverified."
    } else if i == 21 {
        "Create a new product. Endpoint unconfirmed against this sandbox — flag results as unverified."
    } else if i == 22 {
        "Delete a product by ID. Endpoint unconfirmed against this sandbox — flag results as unverified."
    } else if i == 23 {
        "List the components (items) that make up a product bundle. Endpoint unconfirmed against this sandbox — flag results as unverified."
    } else if i == 24 {
        "Add a component (item) to a product bundle. Endpoint unconfirmed against this sandbox — flag results as unverified."
    } else if i == 25 {
        "List quotations/quotes. Returns paginated results. Endpoint unconfirmed against this sandbox — flag results as unverified."
    } else if i == 26 {
        "Get full details of a single quotation by ID, including line items. Endpoint unconfirmed against this sandbox — flag results as unverified."
    } else if i == 27 {
        "Create a new quotation. Confirmed against the live sandbox: user_id (a valid contact on the client, from list_users) is required or HaloPSA rejects with 400 'Please select a valid User'."
    } else if i == 28 {
        "Update line items on an existing quotation. Endpoint unconfirmed against this sandbox — flag results as unverified."
    } else if i == 29 {
        "Approve or reject a quotation. May trigger downstream invoice/sales order creation. Endpoint unconfirmed against this sandbox."
    } else if i == 30 {
        "Get a presentation-ready view of a quotation (same data as get_quotation — no distinct rendered-view endpoint was found)."
    } else if i == 31 {
        "List timesheet entries across agents. Endpoint unconfirmed against this sandbox — flag results as unverified."
    } else if i == 32 {
        "Get timesheet entries for the currently authenticated agent. Endpoint unconfirmed against this sandbox — flag results as unverified."
    } else {
        "Get a single timesheet entry by ID. Endpoint unconfirmed against this sandbox — flag results as unverified."
    }
}

/// Tool input schemas, part 4.
pub open spec fn halo_schema_3(i: int) -> JsonModel {
    if i == 0 {
        schema_update_asset()
    } else if i == 1 {
        schema_list_asset_software()
    } else if i == 2 {
        schema_list_roles()
    } else if i == 3 {
        schema_get_role()
    } else if i == 4 {
        schema_create_role()
    } else if i == 5 {
        schema_update_role()
    } else if i == 6 {
        schema_delete_role()
    } else if i == 7 {
        schema_list_tags()
    } else if i == 8 {
        schema_get_tag()
    } else if i == 9 {
        schema_create_tag()
    } else if i == 10 {
        schema_delete_tag()
    } else if i == 11 {
        schema_list_item_groups()
    } else if i == 12 {
        schema_get_item_group()
    } else if i == 13 {
        schema_create_item_group()
    } else if i == 14 {
        schema_delete_item_group()
    } else if i == 15 {
        schema_list_items()
    } else if i == 16 {
        schema_get_item()
    } else if i == 17 {
        schema_create_item()
    } else if i == 18 {
        schema_list_item_stock()
    } else if i == 19 {
        schema_list_products()
    } else if i == 20 {
        schema_get_product()
    } else if i == 21 {
        schema_create_product()
    } else if i == 22 {
        schema_delete_product()
    } else if i == 23 {
        schema_list_product_components()
    } else if i == 24 {
        schema_create_product_component()
    } else if i == 25 {
        schema_list_quotations()
    } else if i == 26 {
        schema_get_quotation()
    } else if i == 27 {
        schema_create_quotation()
    } else if i == 28 {
        schema_update_quotation_lines()
    } else if i == 29 {
        schema_approve_quotation()
    } else if i == 30 {
        schema_view_quotation()
    } else if i == 31 {
        schema_list_timesheets()
    } else if i == 32 {
        schema_get_my_timesheets()
    } else {
        schema_get_timesheet()
    }
}

fn halo_schema_value_3(i: usize) -> (r: JsonValue)
    requires
        i < 34,
    ensures
        model(r) == halo_schema_3(i as int),
{
    if i == 0 {
        build_schema_update_asset()
    } else if i == 1 {
        build_schema_list_asset_software()
    } else if i == 2 {
        build_schema_list_roles()
    } else if i == 3 {
        build_schema_get_role()
    } else if i == 4 {
        build_schema_create_role()
    } else if i == 5 {
        build_schema_update_role()
    } else if i == 6 {
        build_schema_delete_role()
    } else if i == 7 {
        build_schema_list_tags()
    } else if i == 8 {
        build_schema_get_tag()
    } else if i == 9 {
        build_schema_create_tag()
    } else if i == 10 {
        build_schema_delete_tag()
    } else if i == 11 {
        build_schema_list_item_groups()
    } else if i == 12 {
        build_schema_get_item_group()
    } else if i == 13 {
        build_schema_create_item_group()
    } else if i == 14 {
        build_schema_delete_item_group()
    } else if i == 15 {
        build_schema_list_items()
    } else if i == 16 {
        build_schema_get_item()
    } else if i == 17 {
        build_schema_create_item()
    } else if i == 18 {
        build_schema_list_item_stock()
    } else if i == 19 {
        build_schema_list_products()
    } else if i == 20 {
        build_schema_get_product()
    } else if i == 21 {
        build_schema_create_product()
    } else if i == 22 {
        build_schema_delete_product()
    } else if i == 23 {
        build_schema_list_product_components()
    } else if i == 24 {
        build_schema_create_product_component()
    } else if i == 25 {
        build_schema_list_quotations()
    } else if i == 26 {
        build_schema_get_quotation()
    } else if i == 27 {
        build_schema_create_quotation()
    } else if i == 28 {
        build_schema_update_quotation_lines()
    } else if i == 29 {
        build_schema_approve_quotation()
    } else if i == 30 {
        build_schema_view_quotation()
    } else if i == 31 {
        build_schema_list_timesheets()
    } else if i == 32 {
        build_schema_get_my_timesheets()
    } else {
        build_schema_get_timesheet()
    }
}

/// Tool names, part 5.
pub open spec fn halo_name_4(i: int) -> Seq<char> {
    if i == 0 {
        "create_timesheet"@
    } else if i == 1 {
        "get_invoice"@
    } else if i == 2 {
        "list_invoice_lines"@
    } else if i == 3 {
        "create_asset_group"@
    } else if i == 4 {
        "update_asset_group"@
    } else if i == 5 {
        "delete_asset_group"@
    } else if i == 6 {
        "list_attachments"@
    } else if i == 7 {
        "get_attachment"@
    } else if i == 8 {
        "delete_attachment"@
    } else if i == 9 {
        "update_client"@
    } else if i == 10 {
        "list_asset_types"@
    } else if i == 11 {
        "search_agents"@
    } else if i == 12 {
        "list_projects"@
    } else if i == 13 {
        "get_project"@
    } else if i == 14 {
        "create_project"@
    } else if i == 15 {
        "update_project"@
    } else if i == 16 {
        "list_project_tasks"@
    } else if i == 17 {
        "create_report_pdf"@
    } else if i == 18 {
        "list_opportunities"@
    } else if i == 19 {
        "get_opportunity"@
    } else if i == 20 {
        "create_opportunity"@
    } else if i == 21 {
        "update_opportunity"@
    } else if i == 22 {
        "list_crm_notes"@
    } else if i == 23 {
        "create_crm_note"@
    } else if i == 24 {
        "list_contact_groups"@
    } else if i == 25 {
        "manage_contact_group_members"@
    } else if i == 26 {
        "list_ticket_approvals"@
    } else if i == 27 {
        "process_approval"@
    } else if i == 28 {
        "list_feedback"@
    } else if i == 29 {
        "list_custom_tables"@
    } else if i == 30 {
        "get_custom_table"@
    } else if i == 31 {
        "create_custom_table"@
    } else if i == 32 {
        "delete_custom_table"@
    } else {
        "list_ticket_types"@
    }
}

fn halo_name_str_4(i: usize) -> (r: &'static str)
    requires
        i < 34,
    ensures
        r@ == halo_name_4(i as int),
{
    if i == 0 {
        "create_timesheet"
    } else if i == 1 {
        "get_invoice"
    } else if i == 2 {
        "list_invoice_lines"
    } else if i == 3 {
        "create_asset_group"
    } else if i == 4 {
        "update_asset_group"
    } else if i == 5 {
        "delete_asset_group"
    } else if i == 6 {
        "list_attachments"
    } else if i == 7 {
        "get_attachment"
    } else if i == 8 {
        "delete_attachment"
    } else if i == 9 {
        "update_client"
    } else if i == 10 {
        "list_asset_types"
    } else if i == 11 {
        "search_agents"
    } else if i == 12 {
        "list_projects"
    } else if i == 13 {
        "get_project"
    } else if i == 14 {
        "create_project"
    } else if i == 15 {
        "update_project"
    } else if i == 16 {
        "list_project_tasks"
    } else if i == 17 {
        "create_report_pdf"
    } else if i == 18 {
        "list_opportunities"
    } else if i == 19 {
        "get_opportunity"
    } else if i == 20 {
        "create_opportunity"
    } else if i == 21 {
        "update_opportunity"
    } else if i == 22 {
        "list_crm_notes"
    } else if i == 23 {
        "create_crm_note"
    } else if i == 24 {
        "list_contact_groups"
    } else if i == 25 {
        "manage_contact_group_members"
    } else if i == 26 {
        "list_ticket_approvals"
    } else if i == 27 {
        "process_approval"
    } else if i == 28 {
        "list_feedback"
    } else if i == 29 {
        "list_custom_tables"
    } else if i == 30 {
        "get_custom_table"
    } else if i == 31 {
        "create_custom_table"
    } else if i == 32 {
        "delete_custom_table"
    } else {
        "list_ticket_types"
    }
}

/// Tool descriptions, part 5.
pub open spec fn halo_description_4(i: int) -> Seq<char> {
    if i == 0 {
        "Create/update a daily workday timesheet record for an agent (their scheduled vs. worked hours for one calendar day) — NOT a per-ticket time entry; use log_time for that. Confirmed against the live sandbox: the previously assumed shape ({agent_id, hours, ticket_id}) causes a 500 Internal Server Error. The real shape mirrors list_timesheets' rows: { agent_id, date, workdayid, work_hours }."@
    } else if i == 1 {
        "Get full details of a single invoice by ID, including line items."@
    } else if i == 2 {
        "List invoice line items for a specific invoice, or across recent invoices if no invoice_id given."@
    } else if i == 3 {
        "Create a new asset group. Confirmed against the live sandbox: HaloPSA rejects the request with 'Please pick use for this group' unless at least one of showasequip/showasitem is set true — it is not a \"use\" field despite the error text."@
    } else if i == 4 {
        "Update an existing asset group's fields. Endpoint unconfirmed against this sandbox — flag results as unverified."@
    } else if i == 5 {
        "Delete an asset group by ID. Assets in the group are not deleted, only ungrouped. Endpoint unconfirmed against this sandbox."@
    } else if i == 6 {
        "List attachment metadata, optionally scoped to a ticket. Does not fetch file bytes. Endpoint unconfirmed against this sandbox — flag results as unverified."@
    } else if i == 7 {
        "Get attachment metadata by ID (filename, size, MIME type) — does not fetch file bytes. Endpoint unconfirmed against this sandbox."@
    } else if i == 8 {
        "Delete an attachment by ID. WARNING: permanently removes the file. Endpoint unconfirmed against this sandbox."@
    } else if i == 9 {
        "Update an existing client's fields (name, contact details, custom fields)."@
    } else if i == 10 {
        "List all available asset types configured in HaloPSA. Endpoint unconfirmed against this sandbox — flag results as unverified."@
    } else if i == 11 {
        "Search agents (technicians) by name or email. Endpoint unconfirmed against this sandbox — flag results as unverified."@
    } else if i == 12 {
        "List projects (Tickets scoped to the 'Projects' ticket area). Returns paginated results."@
    } else if i == 13 {
        "Get full details of a single project by ID (same underlying record as get_ticket)."@
    } else if i == 14 {
        "Create a new project. Requires an appropriate tickettype_id (use list_ticket_types to find the Project-designated type) — the Projects ticketarea_id is filled in automatically."@
    } else if i == 15 {
        "Update an existing project's fields (same underlying record as update_ticket)."@
    } else if i == 16 {
        "List tasks (child tickets) under a project. Parent/child field unconfirmed against this sandbox — flag results as unverified."@
    } else if i == 17 {
        "Confirmed NOT to work as described: the `ispdf`/`dontloadsystemreport` query params this sends aren't real HaloPSA parameters (absent from the official API docs) and are silently ignored — this just returns the same report JSON as fetching the report normally (with loadreport=true), never a PDF. No real PDF-export endpoint has been found for reports. Prefer run_report for report data; treat any PDF/file expectation from this tool as unmet."@
    } else if i == 18 {
        "List CRM opportunities/deals (sales pipeline). Returns paginated results."@
    } else if i == 19 {
        "Get full details of a single CRM opportunity by ID."@
    } else if i == 20 {
        "Create a new CRM opportunity/deal. Confirmed against the live sandbox: `targetdate` is required or HaloPSA rejects with 400 'Target Date is mandatory'."@
    } else if i == 21 {
        "Update an existing CRM opportunity's fields (stage, value, probability, etc)."@
    } else if i == 22 {
        "List CRM notes against a client or supplier. Endpoint unconfirmed against this sandbox — flag results as unverified."@
    } else if i == 23 {
        "Create a CRM note against a client or supplier. Confirmed against the live sandbox."@
    } else if i == 24 {
        "List contact groups (shown in the agent UI as 'Distribution Lists')."@
    } else if i == 25 {
        "Add or remove a user from a contact group (distribution list). Field shape unconfirmed against this sandbox — flag results as unverified."@
    } else if i == 26 {
        "List pending ticket approvals."@
    } else if i == 27 {
        "Approve or reject one or more pending ticket approvals. WARNING: irreversible once processed. Body shape unconfirmed against this sandbox."@
    } else if i == 28 {
        "List customer satisfaction (CSAT) feedback entries. Endpoint unconfirmed against this sandbox — flag results as unverified."@
    } else if i == 29 {
        "List custom data tables used for extending Halo's data model. Endpoint unconfirmed against this sandbox — flag results as unverified."@
    } else if i == 30 {
        "Get a single custom table by ID, including column definitions. Endpoint unconfirmed against this sandbox — flag results as unverified."@
    } else if i == 31 {
        "Create a new custom data table. Confirmed against the live sandbox: `name` becomes a real backing database table name (prefixed CT), so it must be alphanumeric with no spaces or special characters — HaloPSA rejects e.g. \"Vendor Certifications\" with 400 'Invalid Name' but accepts \"VendorCertifications\"."@
    } else if i == 32 {
        "Delete a custom table by ID. WARNING: permanently removes the table and all its data. Endpoint unconfirmed against this sandbox."@
    } else {
        "List all available ticket types."@
    }
}

fn halo_description_str_4(i: usize) -> (r: &'static str)
    requires
        i < 34,
    ensures
        r@ == halo_description_4(i as int),
{
    if i == 0 {
        "Create/update a daily workday timesheet record for an agent (their scheduled vs. worked hours for one calendar day) — NOT a per-ticket time entry; use log_time for that. Confirmed against the live sandbox: the previously assumed shape ({agent_id, hours, ticket_id}) causes a 500 Internal Server Error. The real shape mirrors list_timesheets' rows: { agent_id, date, workdayid, work_hours }."
    } else if i == 1 {
        "Get full details of a single invoice by ID, including line items."
    } else if i == 2 {
        "List invoice line items for a specific invoice, or across recent invoices if no invoice_id given."
    } else if i == 3 {
        "Create a new asset group. Confirmed against the live sandbox: HaloPSA rejects the request with 'Please pick use for this group' unless at least one of showasequip/showasitem is set true — it is not a \"use\" field despite the error text."
    } else if i == 4 {
        "Update an existing asset group's fields. Endpoint unconfirmed against this sandbox — flag results as unverified."
    } else if i == 5 {
        "Delete an asset group by ID. Assets in the group are not deleted, only ungrouped. Endpoint unconfirmed against this sandbox."
    } else if i == 6 {
        "List attachment metadata, optionally scoped to a ticket. Does not fetch file bytes. Endpoint unconfirmed against this sandbox — flag results as unverified."
    } else if i == 7 {
        "Get attachment metadata by ID (filename, size, MIME type) — does not fetch file bytes. Endpoint unconfirmed against this sandbox."
    } else if i == 8 {
        "Delete an attachment by ID. WARNING: permanently removes the file. Endpoint unconfirmed against this sandbox."
    } else if i == 9 {
        "Update an existing client's fields (name, contact details, custom fields)."
    } else if i == 10 {
        "List all available asset types configured in HaloPSA. Endpoint unconfirmed against this sandbox — flag results as unverified."
    } else if i == 11 {
        "Search agents (technicians) by name or email. Endpoint unconfirmed against this sandbox — flag results as unverified."
    } else if i == 12 {
        "List projects (Tickets scoped to the 'Projects' ticket area). Returns paginated results."
    } else if i == 13 {
        "Get full details of a single project by ID (same underlying record as get_ticket)."
    } else if i == 14 {
        "Create a new project. Requires an appropriate tickettype_id (use list_ticket_types to find the Project-designated type) — the Projects ticketarea_id is filled in automatically."
    } else if i == 15 {
        "Update an existing project's fields (same underlying record as update_ticket)."
    } else if i == 16 {
        "List tasks (child tickets) under a project. Parent/child field unconfirmed against this sandbox — flag results as unverified."
    } else if i == 17 {
        "Confirmed NOT to work as described: the `ispdf`/`dontloadsystemreport` query params this sends aren't real HaloPSA parameters (absent from the official API docs) and are silently ignored — this just returns the same report JSON as fetching the report normally (with loadreport=true), never a PDF. No real PDF-export endpoint has been found for reports. Prefer run_report for report data; treat any PDF/file expectation from this tool as unmet."
    } else if i == 18 {
        "List CRM opportunities/deals (sales pipeline). Returns paginated results."
    } else if i == 19 {
        "Get full details of a single CRM opportunity by ID."
    } else if i == 20 {
        "Create a new CRM opportunity/deal. Confirmed against the live sandbox: `targetdate` is required or HaloPSA rejects with 400 'Target Date is mandatory'."
    } else if i == 21 {
        "Update an existing CRM opportunity's fields (stage, value, probability, etc)."
    } else if i == 22 {
        "List CRM notes against a client or supplier. Endpoint unconfirmed against this sandbox — flag results as unverified."
    } else if i == 23 {
        "Create a CRM note against a client or supplier. Confirmed against the live sandbox."
    } else if i == 24 {
        "List contact groups (shown in the agent UI as 'Distribution Lists')."
    } else if i == 25 {
        "Add or remove a user from a contact group (distribution list). Field shape unconfirmed against this sandbox — flag results as unverified."
    } else if i == 26 {
        "List pending ticket approvals."
    } else if i == 27 {
        "Approve or reject one or more pending ticket approvals. WARNING: irreversible once processed. Body shape unconfirmed against this sandbox."
    } else if i == 28 {
        "List customer satisfaction (CSAT) feedback entries. Endpoint unconfirmed against this sandbox — flag results as unverified."
    } else if i == 29 {
        "List custom data tables used for extending Halo's data model. Endpoint unconfirmed against this sandbox — flag results as unverified."
    } else if i == 30 {
        "Get a single custom table by ID, including column definitions. Endpoint unconfirmed against this sandbox — flag results as unverified."
    } else if i == 31 {
        "Create a new custom data table. Confirmed against the live sandbox: `name` becomes a real backing database table name (prefixed CT), so it must be alphanumeric with no spaces or special characters — HaloPSA rejects e.g. \"Vendor Certifications\" with 400 'Invalid Name' but accepts \"VendorCertifications\"."
    } else if i == 32 {
        "Delete a custom table by ID. WARNING: permanently removes the table and all its data. Endpoint unconfirmed against this sandbox."
    } else {
        "List all available ticket types."
    }
}

/// Tool input schemas, part 5.
pub open spec fn halo_schema_4(i: int) -> JsonModel {
    if i == 0 {
        schema_create_timesheet()
    } else if i == 1 {
        schema_get_invoice()
    } else if i == 2 {
        schema_list_invoice_lines()
    } else if i == 3 {
        schema_create_asset_group()
    } else if i == 4 {
        schema_update_asset_group()
    } else if i == 5 {
        schema_delete_asset_group()
    } else if i == 6 {
        schema_list_attachments()
    } else if i == 7 {
        schema_get_attachment()
    } else if i == 8 {
        schema_delete_attachment()
    } else if i == 9 {
        schema_update_client()
    } else if i == 10 {
        schema_list_asset_types()
    } else if i == 11 {
        schema_search_agents()
    } else if i == 12 {
        schema_list_projects()
    } else if i == 13 {
        schema_get_project()
    } else if i == 14 {
        schema_create_project()
    } else if i == 15 {
        schema_update_project()
    } else if i == 16 {
        schema_list_project_tasks()
    } else if i == 17 {
        schema_create_report_pdf()
    } else if i == 18 {
        schema_list_opportunities()
    } else if i == 19 {
        schema_get_opportunity()
    } else if i == 20 {
        schema_create_opportunity()
    } else if i == 21 {
        schema_update_opportunity()
    } else if i == 22 {
        schema_list_crm_notes()
    } else if i == 23 {
        schema_create_crm_note()
    } else if i == 24 {
        schema_list_contact_groups()
    } else if i == 25 {
        schema_manage_contact_group_members()
    } else if i == 26 {
        schema_list_ticket_approvals()
    } else if i == 27 {
        schema_process_approval()
    } else if i == 28 {
        schema_list_feedback()
    } else if i == 29 {
        schema_list_custom_tables()
    } else if i == 30 {
        schema_get_custom_table()
    } else if i == 31 {
        schema_create_custom_table()
    } else if i == 32 {
        schema_delete_custom_table()
    } else {
        schema_list_ticket_types()
    }
}

fn halo_schema_value_4(i: usize) -> (r: JsonValue)
    requires
        i < 34,
    ensures
        model(r) == halo_schema_4(i as int),
{
    if i == 0 {
        build_schema_create_timesheet()
    } else if i == 1 {
        build_schema_get_invoice()
    } else if i == 2 {
        build_schema_list_invoice_lines()
    } else if i == 3 {
        build_schema_create_asset_group()
    } else if i == 4 {
        build_schema_update_asset_group()
    } else if i == 5 {
        build_schema_delete_asset_group()
    } else if i == 6 {
        build_schema_list_attachments()
    } else if i == 7 {
        build_schema_get_attachment()
    } else if i == 8 {
        build_schema_delete_attachment()
    } else if i == 9 {
        build_schema_update_client()
    } else if i == 10 {
        build_schema_list_asset_types()
    } else if i == 11 {
        build_schema_search_agents()
    } else if i == 12 {
        build_schema_list_projects()
    } else if i == 13 {
        build_schema_get_project()
    } else if i == 14 {
        build_schema_create_project()
    } else if i == 15 {
        build_schema_update_project()
    } else if i == 16 {
        build_schema_list_project_tasks()
    } else if i == 17 {
        build_schema_create_report_pdf()
    } else if i == 18 {
        build_schema_list_opportunities()
    } else if i == 19 {
        build_schema_get_opportunity()
    } else if i == 20 {
        build_schema_create_opportunity()
    } else if i == 21 {
        build_schema_update_opportunity()
    } else if i == 22 {
        build_schema_list_crm_notes()
    } else if i == 23 {
        build_schema_create_crm_note()
    } else if i == 24 {
        build_schema_list_contact_groups()
    } else if i == 25 {
        build_schema_manage_contact_group_members()
    } else if i == 26 {
        build_schema_list_ticket_approvals()
    } else if i == 27 {
        build_schema_process_approval()
    } else if i == 28 {
        build_schema_list_feedback()
    } else if i == 29 {
        build_schema_list_custom_tables()
    } else if i == 30 {
        build_schema_get_custom_table()
    } else if i == 31 {
        build_schema_create_custom_table()
    } else if i == 32 {
        build_schema_delete_custom_table()
    } else {
        build_schema_list_ticket_types()
    }
}

/// Tool names, part 6.
pub open spec fn halo_name_5(i: int) -> Seq<char> {
    if i == 0 {
        "get_ticket_type_details"@
    } else if i == 1 {
        "list_ticket_type_fields"@
    } else if i == 2 {
        "get_client"@
    } else if i == 3 {
        "list_clients"@
    } else if i == 4 {
        "search_clients"@
    } else if i == 5 {
        "list_users"@
    } else if i == 6 {
        "get_user"@
    } else if i == 7 {
        "search_users"@
    } else if i == 8 {
        "list_reports"@
    } else if i == 9 {
        "list_report_categories"@
    } else if i == 10 {
        "get_lookup_values"@
    } else if i == 11 {
        "get_agent"@
    } else if i == 12 {
        "list_ticket_areas"@
    } else if i == 13 {
        "list_workflow_steps"@
    } else if i == 14 {
        "run_report"@
    } else if i == 15 {
        "get_me"@
    } else if i == 16 {
        "get_ticket_assets"@
    } else if i == 17 {
        "get_asset"@
    } else if i == 18 {
        "list_assets"@
    } else if i == 19 {
        "search_assets"@
    } else if i == 20 {
        "list_sites"@
    } else if i == 21 {
        "get_site"@
    } else if i == 22 {
        "create_site"@
    } else if i == 23 {
        "update_site"@
    } else if i == 24 {
        "list_agents"@
    } else if i == 25 {
        "list_asset_groups"@
    } else if i == 26 {
        "get_asset_group"@
    } else if i == 27 {
        "list_slas"@
    } else if i == 28 {
        "get_sla"@
    } else if i == 29 {
        "list_priorities"@
    } else if i == 30 {
        "list_outcomes"@
    } else {
        "list_categories"@
    }
}

fn halo_name_str_5(i: usize) -> (r: &'static str)
    requires
        i < 32,
    ensures
        r@ == halo_name_5(i as int),
{
    if i == 0 {
        "get_ticket_type_details"
    } else if i == 1 {
        "list_ticket_type_fields"
    } else if i == 2 {
        "get_client"
    } else if i == 3 {
        "list_clients"
    } else if i == 4 {
        "search_clients"
    } else if i == 5 {
        "list_users"
    } else if i == 6 {
        "get_user"
    } else if i == 7 {
        "search_users"
    } else if i == 8 {
        "list_reports"
    } else if i == 9 {
        "list_report_categories"
    } else if i == 10 {
        "get_lookup_values"
    } else if i == 11 {
        "get_agent"
    } else if i == 12 {
        "list_ticket_areas"
    } else if i == 13 {
        "list_workflow_steps"
    } else if i == 14 {
        "run_report"
    } else if i == 15 {
        "get_me"
    } else if i == 16 {
        "get_ticket_assets"
    } else if i == 17 {
        "get_asset"
    } else if i == 18 {
        "list_assets"
    } else if i == 19 {
        "search_assets"
    } else if i == 20 {
        "list_sites"
    } else if i == 21 {
        "get_site"
    } else if i == 22 {
        "create_site"
    } else if i == 23 {
        "update_site"
    } else if i == 24 {
        "list_agents"
    } else if i == 25 {
        "list_asset_groups"
    } else if i == 26 {
        "get_asset_group"
    } else if i == 27 {
        "list_slas"
    } else if i == 28 {
        "get_sla"
    } else if i == 29 {
        "list_priorities"
    } else if i == 30 {
        "list_outcomes"
    } else {
        "list_categories"
    }
}

/// Tool descriptions, part 6.
pub open spec fn halo_description_5(i: int) -> Seq<char> {
    if i == 0 {
        "Get full configuration details for a single ticket type, including its workflow, categories, and other settings."@
    } else if i == 1 {
        "List the fields configured for a ticket type (e.g. Summary, Category, Priority, plus any custom fields)."@
    } else if i == 2 {
        "Get details about a specific client by ID."@
    } else if i == 3 {
        "List clients with optional keyword search. Returns paginated results."@
    } else if i == 4 {
        "Search clients by keyword. Returns matching clients ordered by relevance."@
    } else if i == 5 {
        "List users (end-user contacts) with optional client filter and keyword search. Returns paginated results."@
    } else if i == 6 {
        "Get full details of a single user (end-user contact) by ID."@
    } else if i == 7 {
        "Search users (end-user contacts) by keyword. Returns matching users."@
    } else if i == 8 {
        "List saved report definitions within a category (use list_report_categories to find category IDs, or pass 0 for All Reports), or search by name across every category. When search is provided, it takes priority and reportgroup_id is ignored — search spans all categories. Returns paginated results."@
    } else if i == 9 {
        "List report categories/groups (e.g. 'My Reports', 'KPI Reports'). Use the returned id as reportgroup_id in list_reports."@
    } else if i == 10 {
        "Get values for a HaloPSA lookup table by ID (e.g. lookupid 41 is report categories). Use when you need a specific lookup table's contents and know its ID."@
    } else if i == 11 {
        "Get details about a specific agent (staff member) by ID."@
    } else if i == 12 {
        "List ticket areas (e.g. Service Desk, Projects, Internal Processes) — the area a ticket belongs to."@
    } else if i == 13 {
        "List the steps and available transition actions for a workflow. Use get_ticket_type or a ticket's workflow_id to find the workflow ID."@
    } else if i == 14 {
        "Run a saved HaloPSA report by ID and return its result rows. Use list_reports to find report IDs. The response includes filterable_columns — only filter on fields listed there. To narrow results, pass filters overriding the report's saved filter set."@
    } else if i == 15 {
        "Get information about the authenticated user (agent)."@
    } else if i == 16 {
        "List assets associated with a ticket."@
    } else if i == 17 {
        "Get full details of a single asset by ID."@
    } else if i == 18 {
        "List assets, optionally filtered by asset type. Omit assettype_id for all types. Returns paginated results."@
    } else if i == 19 {
        "Search assets by keyword across all types. Returns matching assets."@
    } else if i == 20 {
        "List sites. Returns paginated results."@
    } else if i == 21 {
        "Get full details of a single site by ID."@
    } else if i == 22 {
        "Create a new site for a client."@
    } else if i == 23 {
        "Update fields on an existing site. Only provided fields are changed."@
    } else if i == 24 {
        "List agents (staff members). Returns paginated results."@
    } else if i == 25 {
        "List asset groups. Returns paginated results."@
    } else if i == 26 {
        "Get full details of a single asset group by ID."@
    } else if i == 27 {
        "List all SLAs (service level agreements)."@
    } else if i == 28 {
        "Get full details of a single SLA by ID, including its nested priority levels. Tickets are associated with an SLA, and priorities are defined per-SLA rather than globally."@
    } else if i == 29 {
        "List the priority levels defined on an SLA (e.g. P1 Site Down, P2 Mission Critical). Use list_slas to find SLA IDs. Priorities are per-SLA, not global."@
    } else if i == 30 {
        "List all action outcome definitions (e.g. the options available when adding an action to a ticket)."@
    } else {
        "List categories of a given type. type_id 1 = ticket categories, type_id 2 = resolution categories. There may be other category types on this instance — use list_categories with different type_id values to discover them if needed."@
    }
}

fn halo_description_str_5(i: usize) -> (r: &'static str)
    requires
        i < 32,
    ensures
        r@ == halo_description_5(i as int),
{
    if i == 0 {
        "Get full configuration details for a single ticket type, including its workflow, categories, and other settings."
    } else if i == 1 {
        "List the fields configured for a ticket type (e.g. Summary, Category, Priority, plus any custom fields)."
    } else if i == 2 {
        "Get details about a specific client by ID."
    } else if i == 3 {
        "List clients with optional keyword search. Returns paginated results."
    } else if i == 4 {
        "Search clients by keyword. Returns matching clients ordered by relevance."
    } else if i == 5 {
        "List users (end-user contacts) with optional client filter and keyword search. Returns paginated results."
    } else if i == 6 {
        "Get full details of a single user (end-user contact) by ID."
    } else if i == 7 {
        "Search users (end-user contacts) by keyword. Returns matching users."
    } else if i == 8 {
        "List saved report definitions within a category (use list_report_categories to find category IDs, or pass 0 for All Reports), or search by name across every category. When search is provided, it takes priority and reportgroup_id is ignored — search spans all categories. Returns paginated results."
    } else if i == 9 {
        "List report categories/groups (e.g. 'My Reports', 'KPI Reports'). Use the returned id as reportgroup_id in list_reports."
    } else if i == 10 {
        "Get values for a HaloPSA lookup table by ID (e.g. lookupid 41 is report categories). Use when you need a specific lookup table's contents and know its ID."
    } else if i == 11 {
        "Get details about a specific agent (staff member) by ID."
    } else if i == 12 {
        "List ticket areas (e.g. Service Desk, Projects, Internal Processes) — the area a ticket belongs to."
    } else if i == 13 {
        "List the steps and available transition actions for a workflow. Use get_ticket_type or a ticket's workflow_id to find the workflow ID."
    } else if i == 14 {
        "Run a saved HaloPSA report by ID and return its result rows. Use list_reports to find report IDs. The response includes filterable_columns — only filter on fields listed there. To narrow results, pass filters overriding the report's saved filter set."
    } else if i == 15 {
        "Get information about the authenticated user (agent)."
    } else if i == 16 {
        "List assets associated with a ticket."
    } else if i == 17 {
        "Get full details of a single asset by ID."
    } else if i == 18 {
        "List assets, optionally filtered by asset type. Omit assettype_id for all types. Returns paginated results."
    } else if i == 19 {
        "Search assets by keyword across all types. Returns matching assets."
    } else if i == 20 {
        "List sites. Returns paginated results."
    } else if i == 21 {
        "Get full details of a single site by ID."
    } else if i == 22 {
        "Create a new site for a client."
    } else if i == 23 {
        "Update fields on an existing site. Only provided fields are changed."
    } else if i == 24 {
        "List agents (staff members). Returns paginated results."
    } else if i == 25 {
        "List asset groups. Returns paginated results."
    } else if i == 26 {
        "Get full details of a single asset group by ID."
    } else if i == 27 {
        "List all SLAs (service level agreements)."
    } else if i == 28 {
        "Get full details of a single SLA by ID, including its nested priority levels. Tickets are associated with an SLA, and priorities are defined per-SLA rather than globally."
    } else if i == 29 {
        "List the priority levels defined on an SLA (e.g. P1 Site Down, P2 Mission Critical). Use list_slas to find SLA IDs. Priorities are per-SLA, not global."
    } else if i == 30 {
        "List all action outcome definitions (e.g. the options available when adding an action to a ticket)."
    } else {
        "List categories of a given type. type_id 1 = ticket categories, type_id 2 = resolution categories. There may be other category types on this instance — use list_categories with different type_id values to discover them if needed."
    }
}

/// Tool input schemas, part 6.
pub open spec fn halo_schema_5(i: int) -> JsonModel {
    if i == 0 {
        schema_get_ticket_type_details()
    } else if i == 1 {
        schema_list_ticket_type_fields()
    } else if i == 2 {
        schema_get_client()
    } else if i == 3 {
        schema_list_clients()
    } else if i == 4 {
        schema_search_clients()
    } else if i == 5 {
        schema_list_users()
    } else if i == 6 {
        schema_get_user()
    } else if i == 7 {
        schema_search_users()
    } else if i == 8 {
        schema_list_reports()
    } else if i == 9 {
        schema_list_report_categories()
    } else if i == 10 {
        schema_get_lookup_values()
    } else if i == 11 {
        schema_get_agent()
    } else if i == 12 {
        schema_list_ticket_areas()
    } else if i == 13 {
        schema_list_workflow_steps()
    } else if i == 14 {
        schema_run_report()
    } else if i == 15 {
        schema_get_me()
    } else if i == 16 {
        schema_get_ticket_assets()
    } else if i == 17 {
        schema_get_asset()
    } else if i == 18 {
        schema_list_assets()
    } else if i == 19 {
        schema_search_assets()
    } else if i == 20 {
        schema_list_sites()
    } else if i == 21 {
        schema_get_site()
    } else if i == 22 {
        schema_create_site()
    } else if i == 23 {
        schema_update_site()
    } else if i == 24 {
        schema_list_agents()
    } else if i == 25 {
        schema_list_asset_groups()
    } else if i == 26 {
        schema_get_asset_group()
    } else if i == 27 {
        schema_list_slas()
    } else if i == 28 {
        schema_get_sla()
    } else if i == 29 {
        schema_list_priorities()
    } else if i == 30 {
        schema_list_outcomes()
    } else {
        schema_list_categories()
    }
}

fn halo_schema_value_5(i: usize) -> (r: JsonValue)
    requires
        i < 32,
    ensures
        model(r) == halo_schema_5(i as int),
{
    if i == 0 {
        build_schema_get_ticket_type_details()
    } else if i == 1 {
        build_schema_list_ticket_type_fields()
    } else if i == 2 {
        build_schema_get_client()
    } else if i == 3 {
        build_schema_list_clients()
    } else if i == 4 {
        build_schema_search_clients()
    } else if i == 5 {
        build_schema_list_users()
    } else if i == 6 {
        build_schema_get_user()
    } else if i == 7 {
        build_schema_search_users()
    } else if i == 8 {
        build_schema_list_reports()
    } else if i == 9 {
        build_schema_list_report_categories()
    } else if i == 10 {
        build_schema_get_lookup_values()
    } else if i == 11 {
        build_schema_get_agent()
    } else if i == 12 {
        build_schema_list_ticket_areas()
    } else if i == 13 {
        build_schema_list_workflow_steps()
    } else if i == 14 {
        build_schema_run_report()
    } else if i == 15 {
        build_schema_get_me()
    } else if i == 16 {
        build_schema_get_ticket_assets()
    } else if i == 17 {
        build_schema_get_asset()
    } else if i == 18 {
        build_schema_list_assets()
    } else if i == 19 {
        build_schema_search_assets()
    } else if i == 20 {
        build_schema_list_sites()
    } else if i == 21 {
        build_schema_get_site()
    } else if i == 22 {
        build_schema_create_site()
    } else if i == 23 {
        build_schema_update_site()
    } else if i == 24 {
        build_schema_list_agents()
    } else if i == 25 {
        build_schema_list_asset_groups()
    } else if i == 26 {
        build_schema_get_asset_group()
    } else if i == 27 {
        build_schema_list_slas()
    } else if i == 28 {
        build_schema_get_sla()
    } else if i == 29 {
        build_schema_list_priorities()
    } else if i == 30 {
        build_schema_list_outcomes()
    } else {
        build_schema_list_categories()
    }
}

/// The name of the `i`-th HaloPSA tool.
pub open spec fn halo_tool_name(i: int) -> Seq<char> {
    if i < 34 {
        halo_name_0(i - 0)
    } else if i < 68 {
        halo_name_1(i - 34)
    } else if i < 102 {
        halo_name_2(i - 68)
    } else if i < 136 {
        halo_name_3(i - 102)
    } else if i < 170 {
        halo_name_4(i - 136)
    } else {
        halo_name_5(i - 170)
    }
}

pub(crate) fn halo_tool_name_str(i: usize) -> (r: &'static str)
    requires
        i < HALO_TOOL_COUNT,
    ensures
        r@ == halo_tool_name(i as int),
{
    if i < 34 {
        halo_name_str_0(i - 0)
    } else if i < 68 {
        halo_name_str_1(i - 34)
    } else if i < 102 {
        halo_name_str_2(i - 68)
    } else if i < 136 {
        halo_name_str_3(i - 102)
    } else if i < 170 {
        halo_name_str_4(i - 136)
    } else {
        halo_name_str_5(i - 170)
    }
}

/// The description of the `i`-th HaloPSA tool.
pub open spec fn halo_tool_description(i: int) -> Seq<char> {
    if i < 34 {
        halo_description_0(i - 0)
    } else if i < 68 {
        halo_description_1(i - 34)
    } else if i < 102 {
        halo_description_2(i - 68)
    } else if i < 136 {
        halo_description_3(i - 102)
    } else if i < 170 {
        halo_description_4(i - 136)
    } else {
        halo_description_5(i - 170)
    }
}

pub(crate) fn halo_tool_description_str(i: usize) -> (r: &'static str)
    requires
        i < HALO_TOOL_COUNT,
    ensures
        r@ == halo_tool_description(i as int),
{
    if i < 34 {
        halo_description_str_0(i - 0)
    } else if i < 68 {
        halo_description_str_1(i - 34)
    } else if i < 102 {
        halo_description_str_2(i - 68)
    } else if i < 136 {
        halo_description_str_3(i - 102)
    } else if i < 170 {
        halo_description_str_4(i - 136)
    } else {
        halo_description_str_5(i - 170)
    }
}

/// The input schema of the `i`-th HaloPSA tool.
pub open spec fn halo_tool_schema(i: int) -> JsonModel {
    if i < 34 {
        halo_schema_0(i - 0)
    } else if i < 68 {
        halo_schema_1(i - 34)
    } else if i < 102 {
        halo_schema_2(i - 68)
    } else if i < 136 {
        halo_schema_3(i - 102)
    } else if i < 170 {
        halo_schema_4(i - 136)
    } else {
        halo_schema_5(i - 170)
    }
}

pub(crate) fn halo_tool_schema_value(i: usize) -> (r: JsonValue)
    requires
        i < HALO_TOOL_COUNT,
    ensures
        model(r) == halo_tool_schema(i as int),
{
    if i < 34 {
        halo_schema_value_0(i - 0)
    } else if i < 68 {
        halo_schema_value_1(i - 34)
    } else if i < 102 {
        halo_schema_value_2(i - 68)
    } else if i < 136 {
        halo_schema_value_3(i - 102)
    } else if i < 170 {
        halo_schema_value_4(i - 136)
    } else {
        halo_schema_value_5(i - 170)
    }
}

/// The name of the `i`-th semantic tool.
pub open spec fn semantic_tool_name(i: int) -> Seq<char> {
    if i == 0 {
        "semantic_search"@
    } else if i == 1 {
        "embedding_status"@
    } else {
        "reembed"@
    }
}

pub(crate) fn semantic_tool_name_str(i: usize) -> (r: &'static str)
    requires
        i < 3,
    ensures
        r@ == semantic_tool_name(i as int),
{
    if i == 0 {
        "semantic_search"
    } else if i == 1 {
        "embedding_status"
    } else {
        "reembed"
    }
}

/// The description of the `i`-th semantic tool.
pub open spec fn semantic_tool_description(i: int) -> Seq<char> {
    if i == 0 {
        "Search tickets using semantic/meaning-based search. Finds conceptually related tickets even when keywords don't match exactly. Results are filtered to tickets the user has access to."@
    } else if i == 1 {
        "Check the status of the ticket embedding/indexing system."@
    } else {
        "Trigger re-indexing of all tickets for semantic search."@
    }
}

pub(crate) fn semantic_tool_description_str(i: usize) -> (r: &'static str)
    requires
        i < 3,
    ensures
        r@ == semantic_tool_description(i as int),
{
    if i == 0 {
        "Search tickets using semantic/meaning-based search. Finds conceptually related tickets even when keywords don't match exactly. Results are filtered to tickets the user has access to."
    } else if i == 1 {
        "Check the status of the ticket embedding/indexing system."
    } else {
        "Trigger re-indexing of all tickets for semantic search."
    }
}

/// The input schema of the `i`-th semantic tool.
pub open spec fn semantic_tool_schema(i: int) -> JsonModel {
    if i == 0 {
        schema_semantic_search()
    } else if i == 1 {
        schema_embedding_status()
    } else {
        schema_reembed()
    }
}

pub(crate) fn semantic_tool_schema_value(i: usize) -> (r: JsonValue)
    requires
        i < 3,
    ensures
        model(r) == semantic_tool_schema(i as int),
{
    if i == 0 {
        build_schema_semantic_search()
    } else if i == 1 {
        build_schema_embedding_status()
    } else {
        build_schema_reembed()
    }
}

} // verus!
