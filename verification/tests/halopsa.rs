use halopsa_mcp::halopsa::{
    action_label, advanced_search_filter, api_error_message, api_url, available_actions,
    cached_token_usable, check_response_size, client_credentials_form, normalize_base_url, page_limit,
    parse_service_token, projects_area_id, require_ticket_type, ticket_query_params, token_expiry, TicketFilter,
};
use halopsa_mcp::json::{JsonEntry, JsonValue};
use halopsa_mcp::types::{Workflow, WorkflowAction, WorkflowStep};

fn action(id: i64, name: &str, start: Option<i64>, agent: Option<i64>) -> WorkflowAction {
    WorkflowAction {
        id,
        action_name: name.to_string(),
        start_step: start,
        end_step: None,
        action_outcome: None,
        action_colour: None,
        enduseraction: 0,
        agentaction: agent,
        action_id: None,
    }
}

fn workflow() -> Workflow {
    Workflow {
        id: 1,
        name: "Incident".to_string(),
        steps: vec![
            WorkflowStep {
                id: 10,
                name: "New".to_string(),
                stage_number: None,
                actions: vec![
                    action(100, "Triage", Some(10), Some(1)),
                    action(101, "Customer only", Some(10), Some(0)),
                ],
            },
            WorkflowStep {
                id: 20,
                name: "Triaged".to_string(),
                stage_number: None,
                actions: vec![action(200, "Resolve", Some(20), None), action(201, "Anywhere", None, Some(2))],
            },
        ],
        stages: vec![],
    }
}

fn obj(members: Vec<(&str, JsonValue)>) -> JsonValue {
    JsonValue::Object(
        members
            .into_iter()
            .map(|(k, v)| JsonEntry { key: k.to_string(), value: v })
            .collect(),
    )
}

#[test]
fn advanced_search_value_is_a_json_filter() {
    assert_eq!(
        advanced_search_filter("priority", "High"),
        r#"[{"filter_name":"priority","filter_type":4,"filter_value":"High"}]"#
    );
    assert_eq!(
        advanced_search_filter("priority", "a\"b\\c"),
        r#"[{"filter_name":"priority","filter_type":4,"filter_value":"a\"b\\c"}]"#
    );
}

#[test]
fn ticket_query_lists_set_filters_in_order() {
    let f = TicketFilter {
        search: Some("printer".to_string()),
        client_id: Some(5),
        agent_id: None,
        team_id: Some(-2),
        status_id: None,
        tickettype_id: None,
        open_only: true,
        priority: Some("High".to_string()),
        ticketarea_id: None,
        parent_id: Some(77),
    };
    let ps = ticket_query_params(2, 500, &f);
    let got: Vec<(&str, &str)> = ps.iter().map(|(k, v)| (k.as_str(), v.as_str())).collect();
    assert_eq!(
        got,
        vec![
            ("pageinate", "true"),
            ("page_no", "2"),
            ("page_size", "100"),
            ("includecolumns", "true"),
            ("search", "printer"),
            ("client_id", "5"),
            ("team_id", "-2"),
            ("open_only", "true"),
            ("advanced_search", r#"[{"filter_name":"priority","filter_type":4,"filter_value":"High"}]"#),
            ("parent_id", "77"),
        ]
    );
    let none = ticket_query_params(1, 0, &TicketFilter::default());
    assert_eq!(none.len(), 4);
    assert_eq!(none[2].1, "1");
}

#[test]
fn page_limit_is_at_least_one() {
    assert_eq!(page_limit(0), 1);
    assert_eq!(page_limit(-3), 1);
    assert_eq!(page_limit(25), 25);
}

#[test]
fn base_url_and_api_urls() {
    assert_eq!(normalize_base_url("https://halo.example///"), "https://halo.example");
    assert_eq!(normalize_base_url("https://halo.example"), "https://halo.example");
    assert_eq!(normalize_base_url("///"), "");
    assert_eq!(api_url("https://h", "/api/Tickets"), "https://h/api/Tickets");
}

#[test]
fn available_actions_follow_step_and_agent_flags() {
    let w = workflow();
    let at_new: Vec<i64> = available_actions(&w, Some(10)).iter().map(|a| a.id).collect();
    assert_eq!(at_new, vec![100, 201]);
    let at_triaged: Vec<i64> = available_actions(&w, Some(20)).iter().map(|a| a.id).collect();
    assert_eq!(at_triaged, vec![200, 201]);
    let unknown: Vec<i64> = available_actions(&w, None).iter().map(|a| a.id).collect();
    assert_eq!(unknown, vec![100, 200, 201]);
}

#[test]
fn action_labels_and_ticket_type() {
    assert_eq!(action_label(&action(-4, "Close", None, None)), "Close (id: -4)");
    assert_eq!(require_ticket_type(Some(3)), Ok(3));
    assert_eq!(require_ticket_type(None), Err("Ticket has no tickettype_id".to_string()));
}

#[test]
fn oversized_responses_are_refused() {
    assert_eq!(check_response_size(None), Ok(()));
    assert_eq!(check_response_size(Some(52_428_800)), Ok(()));
    assert_eq!(
        check_response_size(Some(52_428_801)),
        Err("Response too large: 52428801 bytes".to_string())
    );
}

#[test]
fn api_error_quotes_at_most_500_bytes_without_splitting_characters() {
    assert_eq!(api_error_message("404 Not Found", "nope"), "HaloPSA API error 404 Not Found: nope");
    let body = format!("{}é{}", "a".repeat(499), "b".repeat(10));
    assert_eq!(
        api_error_message("500 Internal Server Error", &body),
        format!("HaloPSA API error 500 Internal Server Error: {}", "a".repeat(499))
    );
    let exact = "x".repeat(600);
    assert_eq!(api_error_message("502", &exact), format!("HaloPSA API error 502: {}", "x".repeat(500)));
}

#[test]
fn service_token_cache_and_parsing() {
    let margin = 300_000_000_000u64;
    assert!(cached_token_usable(1_000 + margin + 1, 1_000));
    assert!(!cached_token_usable(1_000 + margin, 1_000));
    assert!(!cached_token_usable(5, 1_000));
    let data = obj(vec![("access_token", JsonValue::Str("tok".to_string())), ("expires_in", JsonValue::Int(120))]);
    assert_eq!(parse_service_token(&data), Ok(("tok".to_string(), 120)));
    let data = obj(vec![("access_token", JsonValue::Str("tok".to_string()))]);
    assert_eq!(parse_service_token(&data), Ok(("tok".to_string(), 3600)));
    let data = obj(vec![("access_token", JsonValue::Int(1))]);
    assert_eq!(parse_service_token(&data), Err("No access_token in response".to_string()));
    assert_eq!(token_expiry(10, 2), 2_000_000_010);
}

#[test]
fn client_credentials_request_form() {
    let f = client_credentials_form("id", "secret", Some("acme"));
    let got: Vec<(&str, &str)> = f.iter().map(|(k, v)| (k.as_str(), v.as_str())).collect();
    assert_eq!(
        got,
        vec![
            ("grant_type", "client_credentials"),
            ("client_id", "id"),
            ("client_secret", "secret"),
            ("scope", "all"),
            ("tenant", "acme"),
        ]
    );
    assert_eq!(client_credentials_form("id", "secret", None).len(), 4);
}

#[test]
fn paging_parameters() {
    let ps = halopsa_mcp::halopsa::paging_query(3, 0);
    let got: Vec<(&str, &str)> = ps.iter().map(|(k, v)| (k.as_str(), v.as_str())).collect();
    assert_eq!(got, vec![("pageinate", "true"), ("page_no", "3"), ("page_size", "1")]);
}

#[test]
fn projects_area_is_found_by_name_ignoring_case() {
    let area = |name: &str, id: JsonValue| obj(vec![("name", JsonValue::Str(name.to_string())), ("id", id)]);
    let areas = vec![area("Support", JsonValue::Int(1)), area("PROJECTS", JsonValue::Int(7)), area("projects", JsonValue::Int(9))];
    assert_eq!(projects_area_id(&areas), Ok(7));
    let err = Err("Could not find a ticket area named 'Projects'".to_string());
    assert_eq!(projects_area_id(&vec![area("Project", JsonValue::Int(2))]), err);
    assert_eq!(projects_area_id(&vec![area("Projects", JsonValue::Str("x".into())), area("projects", JsonValue::Int(3))]), err);
    assert_eq!(projects_area_id(&vec![]), err);
}

#[test]
fn search_filter_escapes_control_characters() {
    assert_eq!(
        advanced_search_filter("summary", "a\tb\nc\u{1}d\u{7f}é"),
        "[{\"filter_name\":\"summary\",\"filter_type\":4,\"filter_value\":\"a\\tb\\nc\\u0001d\u{7f}é\"}]"
    );
}
