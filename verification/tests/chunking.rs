use halopsa_mcp::chunking::{
    chunk_ticket, strip_html, try_chunk_ticket, ActionChunkInput, Chunk, TicketMetadataInput,
};

fn no_metadata() -> TicketMetadataInput {
    TicketMetadataInput {
        client_name: None,
        site_name: None,
        agent_name: None,
        team: None,
        status: None,
        priority: None,
        category: None,
        custom_fields: Vec::new(),
        assets: Vec::new(),
    }
}

fn triple(c: &Chunk) -> (&str, &str, &str) {
    (c.content.as_str(), c.heading_path.as_str(), c.content_hash.as_str())
}

#[test]
fn strip_html_drops_tags_decodes_entities_and_collapses_lines() {
    let html = "<p>Hello &amp; <b>world</b></p>\n\n   <br>  line two  \n&lt;tag&gt; &quot;q&quot; &#39;s&#x27;&nbsp;end";
    assert_eq!(strip_html(html), "Hello & world\nline two\n<tag> \"q\" 's' end");
}

#[test]
fn strip_html_of_only_markup_is_empty() {
    assert_eq!(strip_html("<div><br/></div>\n \n"), "");
}

#[test]
fn small_ticket_is_one_chunk_with_its_hash() {
    let mut meta = no_metadata();
    meta.client_name = Some("Acme".to_string());
    let chunks = chunk_ticket(42, "Printer broken", "<p>It jams.</p>", &[], &meta);
    assert_eq!(chunks.len(), 1);
    assert_eq!(
        triple(&chunks[0]),
        (
            "Ticket #42: Printer broken\nClient: Acme\n\nIt jams.",
            "Ticket #42",
            "d9469e70eed6cab79c78fa1ea8c1832f968d37b83d3a8785570a45c85789851b"
        )
    );
}

#[test]
fn metadata_lines_come_in_order() {
    let meta = TicketMetadataInput {
        client_name: Some("Acme".to_string()),
        site_name: Some("HQ".to_string()),
        agent_name: Some("Sam".to_string()),
        team: Some("1st Line".to_string()),
        status: Some("Open".to_string()),
        priority: Some("High".to_string()),
        category: Some("Hardware".to_string()),
        custom_fields: vec![("Floor".to_string(), "2".to_string())],
        assets: vec!["PRN-1".to_string(), "PC-7".to_string()],
    };
    let chunks = chunk_ticket(1, "S", "", &[], &meta);
    assert_eq!(chunks.len(), 1);
    assert_eq!(
        chunks[0].content,
        "Ticket #1: S\nClient: Acme\nSite: HQ\nAgent: Sam\nTeam/Queue: 1st Line\nStatus: Open\nPriority: High\nCategory: Hardware\nFloor: 2\nAssets: PRN-1, PC-7\n\n"
    );
}

#[test]
fn trivial_actions_are_skipped_and_significant_ones_chunked() {
    let actions = vec![
        ActionChunkInput {
            note: "<p>ok</p>".to_string(),
            who: Some("Sam".to_string()),
            outcome: None,
            date: None,
        },
        ActionChunkInput {
            note: "The printer on floor 2 was power cycled and now prints fine.".to_string(),
            who: None,
            outcome: Some("Note".to_string()),
            date: None,
        },
    ];
    let chunks = chunk_ticket(42, "Printer broken", "It jams.", &actions, &no_metadata());
    assert_eq!(chunks.len(), 2);
    assert_eq!(
        triple(&chunks[1]),
        (
            "Ticket #42 > Action by Unknown\nOutcome: Note\n\nThe printer on floor 2 was power cycled and now prints fine.",
            "Ticket #42 > Action",
            "902329fa5f632acaef30ea8828c34112e87a8cd98e944d8e553f30773d0ede22"
        )
    );
}

#[test]
fn long_text_is_split_into_parts_with_overlap() {
    // Main content: "Ticket #9: a…a" then the details paragraphs.
    let details = format!("{}\n{}", "b".repeat(600), "c".repeat(100));
    let summary = "a".repeat(600);
    let chunks = chunk_ticket(9, &summary, &details, &[], &no_metadata());
    assert_eq!(chunks.len(), 2);
    assert_eq!(chunks[0].heading_path, "Ticket #9 (part 1)");
    assert_eq!(chunks[0].content, format!("Ticket #9: {}", "a".repeat(600)));
    assert_eq!(chunks[1].heading_path, "Ticket #9 (part 2)");
    // The second part starts with the last 150 bytes of the first.
    assert_eq!(
        chunks[1].content,
        format!("{}\n\n{}\n{}", "a".repeat(150), "b".repeat(600), "c".repeat(100))
    );
}

#[test]
fn split_parts_match_reference_hashes() {
    let summary = "a".repeat(600);
    let details = "b".repeat(1200);
    let chunks = chunk_ticket(3, &summary, &details, &[], &no_metadata());
    assert_eq!(chunks.len(), 2);
    for c in &chunks {
        assert_eq!(c.content_hash, halopsa_mcp::digest::sha256_hex(&c.content));
    }
}

#[test]
fn overlap_inside_a_character_is_reported() {
    // The first part is 212 bytes; cutting its last 150 bytes lands inside
    // an 'é'.
    let summary = format!("{}z", "é".repeat(100));
    let details = "b".repeat(1200);
    assert!(try_chunk_ticket(7, &summary, &details, &[], &no_metadata()).is_none());
}

#[test]
fn overlap_on_a_boundary_is_fine() {
    let summary = format!("x{}", "é".repeat(100));
    let details = "b".repeat(1200);
    let chunks = try_chunk_ticket(7, &summary, &details, &[], &no_metadata()).unwrap();
    assert_eq!(chunks.len(), 2);
    assert_eq!(
        chunks[0].content_hash,
        "86131748346de348ab2d77f0eaee094b68d81567bfd9cdb9ba9f9718b7329ae5"
    );
    assert_eq!(
        chunks[1].content_hash,
        "eee5d1d040bf39b2be056e8aa41070cfe69fd2f11b7c43b79ebd34462d3a89e7"
    );
}

#[test]
fn stripping_twice_changes_nothing_without_ampersands() {
    let html = "<div>\n  <p>Printer <b>offline</b></p>\n\n   <br/> since  Monday \n</div>";
    let once = strip_html(html);
    assert_eq!(once, "Printer offline\nsince  Monday");
    assert_eq!(strip_html(&once), once);
}
