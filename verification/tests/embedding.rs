use halopsa_mcp::chunking::ActionChunkInput;
use halopsa_mcp::json::{JsonEntry, JsonValue};
use halopsa_mcp::pipeline::{embed_start, embed_step, ticket_facts, EmbedAction, EmbedEvent, EmbedState};

fn ticket(summary: &str, details: &str) -> JsonValue {
    JsonValue::Object(vec![
        JsonEntry { key: "summary".to_string(), value: JsonValue::Str(summary.to_string()) },
        JsonEntry { key: "details".to_string(), value: JsonValue::Str(details.to_string()) },
        JsonEntry { key: "client_name".to_string(), value: JsonValue::Str("Acme".to_string()) },
    ])
}

fn fetched(id: i64) -> (EmbedState, EmbedAction) {
    let (s, a) = embed_start(id);
    assert!(matches!(a, EmbedAction::FetchTicket(7)));
    let f = ticket_facts(&ticket("Printer offline", "The office printer is offline."));
    embed_step(s, EmbedEvent::TicketFetched(Ok(f)))
}

#[test]
fn unchanged_ticket_is_skipped() {
    let f = ticket_facts(&ticket("Printer offline", "The office printer is offline."));
    let stored = f.content_hash.clone();
    let (s, a) = fetched(7);
    assert!(matches!(a, EmbedAction::LookupStoredHash(7)));
    let (s, a) = embed_step(s, EmbedEvent::StoredHash(Ok(Some(stored))));
    assert!(matches!(s, EmbedState::Done));
    assert!(matches!(a, EmbedAction::Finish(Ok(()))));
}

#[test]
fn failed_ticket_fetch_ends_with_its_error() {
    let (s, _) = embed_start(7);
    let (s, a) = embed_step(s, EmbedEvent::TicketFetched(Err("HaloPSA API error 404".to_string())));
    assert!(matches!(s, EmbedState::Done));
    match a {
        EmbedAction::Finish(Err(e)) => assert_eq!(e, "HaloPSA API error 404"),
        _ => panic!("expected the fetch error"),
    }
}

#[test]
fn changed_ticket_is_chunked_embedded_and_stored() {
    let (s, _) = fetched(7);
    let (s, a) = embed_step(s, EmbedEvent::StoredHash(Ok(Some("old".to_string()))));
    assert!(matches!(a, EmbedAction::FetchActions(7)));
    let acts = vec![ActionChunkInput {
        note: "Replaced the toner cartridge and restarted the print spooler service.".to_string(),
        who: Some("Sam".to_string()),
        outcome: Some("Note".to_string()),
        date: None,
    }];
    let (s, a) = embed_step(s, EmbedEvent::ActionsFetched(Ok(acts)));
    let texts = match a {
        EmbedAction::Embed(t) => t,
        _ => panic!("expected texts to embed"),
    };
    let chunk_contents: Vec<String> = match &s {
        EmbedState::AwaitEmbeddings(_, _, cs) => cs.iter().map(|c| c.content.clone()).collect(),
        _ => panic!("expected to wait for embeddings"),
    };
    assert_eq!(texts, chunk_contents);
    assert_eq!(texts.len(), 2);
    assert!(texts[0].contains("Printer offline"));
    let (s, a) = embed_step(s, EmbedEvent::Embedded(Ok(2)));
    match a {
        EmbedAction::StoreTicket(7, f) => assert_eq!(f.summary, "Printer offline"),
        _ => panic!("expected the ticket row to be written"),
    }
    let (s, a) = embed_step(s, EmbedEvent::TicketStored(Ok(())));
    match a {
        EmbedAction::StoreChunks(7, cs) => assert_eq!(cs.len(), 2),
        _ => panic!("expected the chunks to be written"),
    }
    let (s, a) = embed_step(s, EmbedEvent::ChunksStored(Ok(())));
    assert!(matches!(s, EmbedState::Done));
    assert!(matches!(a, EmbedAction::Finish(Ok(()))));
}

#[test]
fn count_mismatch_fails_before_any_write() {
    let (s, _) = fetched(7);
    let (s, _) = embed_step(s, EmbedEvent::StoredHash(Err("no database".to_string())));
    let (s, a) = embed_step(s, EmbedEvent::ActionsFetched(Err("timeout".to_string())));
    assert!(matches!(a, EmbedAction::Embed(ref t) if t.len() == 1));
    let (s, a) = embed_step(s, EmbedEvent::Embedded(Ok(3)));
    assert!(matches!(s, EmbedState::Done));
    match a {
        EmbedAction::Finish(Err(e)) => assert_eq!(e, "Embedding count mismatch: 1 chunks, 3 embeddings"),
        _ => panic!("expected the mismatch error"),
    }
}
