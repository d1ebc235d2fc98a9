use vstd::prelude::*;

use crate::chunking::{
    hash_of, try_chunk_ticket, chunk_views, spec_chunk_ticket, ticket_chunking_is_safe, ActionChunkInput,
    Chunk, ChunkView, TicketMetadataInput,
};
use crate::json::{JsonValue, model, spec_arg_str, arg_str};
use crate::tools::opt_view;
use crate::config::{numeral_value, parse_i64};
use crate::digest::sha256_hex;
use crate::text::{chars_of, concat_str, dec_int, extend_chars, push_dec_i64, str_eq, string_of};

verus! {

/// Seconds a running job may go without finishing before another worker
/// takes it back (30 minutes).
pub const STALE_JOB_SECS: i64 = 1800;

/// Tickets fetched per page while indexing everything.
pub const BATCH_SIZE: i64 = 50;

/// What an embedding job covers.
#[derive(Debug)]
pub enum JobScope {
    /// Every ticket (`"all"`).
    All,
    /// One ticket (`"ticket:<id>"`).
    Ticket(i64),
}

/// How a job's scope string is read: `"all"`, or `"ticket:"` followed by a
/// ticket id (an `i64` numeral), anything else being an unknown scope.
pub open spec fn spec_job_scope(scope: Seq<char>) -> Option<JobScope> {
    if scope == "all"@ {
        Some(JobScope::All)
    } else if "ticket:"@.is_prefix_of(scope) {
        match numeral_value(scope.skip(7), true) {
            Some(n) => if i64::MIN <= n <= i64::MAX { Some(JobScope::Ticket(n as i64)) } else { None },
            None => None,
        }
    } else {
        None
    }
}

/// Reads a job's scope; errors are "Invalid ticket ID: ..." for a bad id
/// and "Unknown job scope: {scope}" for anything else.
pub fn parse_job_scope(scope: &str) -> (r: Result<JobScope, String>)
    ensures
        match spec_job_scope(scope@) {
            Some(s) => r == Ok::<JobScope, String>(s),
            None => r matches Err(e) && if "ticket:"@.is_prefix_of(scope@) && scope@ != "all"@ {
                "Invalid ticket ID: "@.is_prefix_of(e@)
            } else {
                e@ == "Unknown job scope: "@ + scope@
            },
        },
{
    proof {
        reveal_strlit("ticket:");
        reveal_strlit("all");
        reveal_strlit("Invalid ticket ID: ");
    }
    if str_eq(scope, "all") {
        return Ok(JobScope::All);
    }
    let v = chars_of(scope);
    let p = chars_of("ticket:");
    let mut is_ticket = v.len() >= 7;
    let mut i: usize = 0;
    while is_ticket && i < 7
        invariant
            p@ == "ticket:"@,
            p@.len() == 7,
            v@ == scope@,
            0 <= i <= 7,
            is_ticket ==> v@.len() >= 7,
            is_ticket ==> forall|j: int| 0 <= j < i ==> v@[j] == p@[j],
            !is_ticket ==> !"ticket:"@.is_prefix_of(scope@),
        decreases 7 - i + (if is_ticket { 1int } else { 0int }),
    {
        if v[i] != p[i] {
            proof {
                if "ticket:"@.is_prefix_of(scope@) {
                    assert(scope@.subrange(0, 7)[i as int] == scope@[i as int]);
                }
            }
            is_ticket = false;
        } else {
            i = i + 1;
        }
    }
    if !is_ticket {
        return Err(concat_str("Unknown job scope: ", scope));
    }
    proof {
        assert("ticket:"@ =~= scope@.subrange(0, 7));
    }
    let mut rest: Vec<char> = Vec::new();
    let mut k: usize = 7;
    while k < v.len()
        invariant
            v@ == scope@,
            7 <= k <= v@.len(),
            rest@ == v@.subrange(7, k as int),
        decreases v@.len() - k,
    {
        rest.push(v[k]);
        proof {
            assert(v@.subrange(7, k + 1) =~= v@.subrange(7, k as int).push(v@[k as int]));
        }
        k = k + 1;
    }
    proof {
        assert(v@.subrange(7, v@.len() as int) =~= scope@.skip(7));
    }
    let rest_s = string_of(&rest);
    match parse_i64(rest_s.as_str()) {
        Ok(n) => Ok(JobScope::Ticket(n)),
        Err(msg) => Err(concat_str("Invalid ticket ID: ", msg.as_str())),
    }
}

/// The change-detection hash of a ticket: hex SHA-256 of
/// `"{summary}\n{details}"`.
pub fn ticket_content_hash(summary: &str, details: &str) -> (r: String)
    ensures
        r@ == hash_of(summary@ + "\n"@ + details@),
{
    let mut v: Vec<char> = Vec::new();
    extend_chars(&mut v, summary);
    extend_chars(&mut v, "\n");
    extend_chars(&mut v, details);
    let s = string_of(&v);
    sha256_hex(s.as_str())
}

/// A ticket is embedded again unless the index already holds exactly this
/// content hash for it.
pub fn needs_reembed(stored_hash: Option<&str>, content_hash: &str) -> (r: bool)
    ensures
        r == !(stored_hash matches Some(h) && h@ == content_hash@),
{
    match stored_hash {
        Some(h) => !str_eq(h, content_hash),
        None => true,
    }
}

/// `"Embedding count mismatch: {c} chunks, {e} embeddings"`.
pub open spec fn count_mismatch_text(chunks: int, embeddings: int) -> Seq<char> {
    "Embedding count mismatch: "@ + dec_int(chunks) + " chunks, "@ + dec_int(embeddings) + " embeddings"@
}

/// The error raised when the embedder returns a different number of vectors
/// than it was given chunks: `"Embedding count mismatch: {c} chunks, {e} embeddings"`.
pub fn embedding_count_error(chunks: usize, embeddings: usize) -> (r: Option<String>)
    ensures
        chunks == embeddings ==> r is None,
        chunks != embeddings ==> (r matches Some(m) && m@ == count_mismatch_text(chunks as int, embeddings as int)),
{
    if chunks == embeddings {
        return None;
    }
    let mut v: Vec<char> = Vec::new();
    extend_chars(&mut v, "Embedding count mismatch: ");
    crate::text::push_dec_u64(&mut v, chunks as u64);
    extend_chars(&mut v, " chunks, ");
    crate::text::push_dec_u64(&mut v, embeddings as u64);
    extend_chars(&mut v, " embeddings");
    proof {
        assert(v@ =~= "Embedding count mismatch: "@ + dec_int(chunks as int) + " chunks, "@ + dec_int(
            embeddings as int,
        ) + " embeddings"@);
    }
    Some(string_of(&v))
}

/// Progress is written back every ten tickets.
pub fn should_report_progress(processed: i64) -> (r: bool)
    ensures
        r == (processed % 10 == 0),
{
    processed % 10 == 0
}

/// `"embedder-{id}"`, the worker's name in the job table.
pub fn worker_name(id: &str) -> (r: String)
    ensures
        r@ == "embedder-"@ + id@,
{
    concat_str("embedder-", id)
}

/// The status a finished job is stored with.
pub fn completion_status(failed: bool) -> (r: String)
    ensures
        r@ == if failed { "failed"@ } else { "completed"@ },
{
    if failed { "failed".to_owned() } else { "completed".to_owned() }
}

/// `"{done}/{total}"`, a job's progress as shown by `embedding_status`.
pub fn progress_text(done: i64, total: i64) -> (r: String)
    ensures
        r@ == dec_int(done as int) + "/"@ + dec_int(total as int),
{
    let mut v: Vec<char> = Vec::new();
    push_dec_i64(&mut v, done);
    extend_chars(&mut v, "/");
    push_dec_i64(&mut v, total);
    proof {
        assert(v@ =~= dec_int(done as int) + "/"@ + dec_int(total as int));
    }
    string_of(&v)
}

/// A string member of a ticket or action, `""` where there is none.
pub open spec fn str_or_empty(m: crate::json::JsonModel, key: Seq<char>) -> Seq<char> {
    match spec_arg_str(m, key) {
        Some(s) => s,
        None => Seq::empty(),
    }
}

fn arg_str_or_empty(v: &JsonValue, key: &str) -> (r: String)
    ensures
        r@ == str_or_empty(model(*v), key@),
{
    match arg_str(v, key) {
        Some(s) => s,
        None => String::new(),
    }
}

/// The summary and details of a fetched ticket (each `""` where missing).
pub fn ticket_text(ticket: &JsonValue) -> (r: (String, String))
    ensures
        r.0@ == str_or_empty(model(*ticket), "summary"@),
        r.1@ == str_or_empty(model(*ticket), "details"@),
{
    (arg_str_or_empty(ticket, "summary"), arg_str_or_empty(ticket, "details"))
}

/// The chunking input of one ticket action: its note, who wrote it, its
/// outcome and its date (`actiondate`).
pub fn action_input_from_json(a: &JsonValue) -> (r: ActionChunkInput)
    ensures
        r.note@ == str_or_empty(model(*a), "note"@),
        opt_view(r.who) == spec_arg_str(model(*a), "who"@),
        opt_view(r.outcome) == spec_arg_str(model(*a), "outcome"@),
        opt_view(r.date) == spec_arg_str(model(*a), "actiondate"@),
{
    ActionChunkInput {
        note: arg_str_or_empty(a, "note"),
        who: arg_str(a, "who"),
        outcome: arg_str(a, "outcome"),
        date: arg_str(a, "actiondate"),
    }
}

/// The chunking input of each action, in order.
pub fn action_inputs_from_json(actions: &Vec<JsonValue>) -> (r: Vec<ActionChunkInput>)
    ensures
        r@.len() == actions@.len(),
        forall|i: int|
            0 <= i < r@.len() ==> {
                &&& (#[trigger] r@[i]).note@ == str_or_empty(model(actions@[i]), "note"@)
                &&& opt_view(r@[i].who) == spec_arg_str(model(actions@[i]), "who"@)
                &&& opt_view(r@[i].outcome) == spec_arg_str(model(actions@[i]), "outcome"@)
                &&& opt_view(r@[i].date) == spec_arg_str(model(actions@[i]), "actiondate"@)
            },
{
    let mut out: Vec<ActionChunkInput> = Vec::new();
    let mut i: usize = 0;
    while i < actions.len()
        invariant
            0 <= i <= actions@.len(),
            out@.len() == i,
            forall|j: int|
                0 <= j < i ==> {
                    &&& (#[trigger] out@[j]).note@ == str_or_empty(model(actions@[j]), "note"@)
                    &&& opt_view(out@[j].who) == spec_arg_str(model(actions@[j]), "who"@)
                    &&& opt_view(out@[j].outcome) == spec_arg_str(model(actions@[j]), "outcome"@)
                    &&& opt_view(out@[j].date) == spec_arg_str(model(actions@[j]), "actiondate"@)
                },
        decreases actions@.len() - i,
    {
        let a = action_input_from_json(&actions[i]);
        out.push(a);
        i = i + 1;
    }
    out
}

/// The chunk metadata of a fetched ticket: client, site, agent, team,
/// status, priority and first category; no custom fields or assets.
pub fn ticket_metadata_from_json(ticket: &JsonValue) -> (r: TicketMetadataInput)
    ensures
        opt_view(r.client_name) == spec_arg_str(model(*ticket), "client_name"@),
        opt_view(r.site_name) == spec_arg_str(model(*ticket), "site_name"@),
        opt_view(r.agent_name) == spec_arg_str(model(*ticket), "agent_name"@),
        opt_view(r.team) == spec_arg_str(model(*ticket), "team"@),
        opt_view(r.status) == spec_arg_str(model(*ticket), "status"@),
        opt_view(r.priority) == spec_arg_str(model(*ticket), "priority"@),
        opt_view(r.category) == spec_arg_str(model(*ticket), "category_1"@),
        r.custom_fields@.len() == 0,
        r.assets@.len() == 0,
{
    TicketMetadataInput {
        client_name: arg_str(ticket, "client_name"),
        site_name: arg_str(ticket, "site_name"),
        agent_name: arg_str(ticket, "agent_name"),
        team: arg_str(ticket, "team"),
        status: arg_str(ticket, "status"),
        priority: arg_str(ticket, "priority"),
        category: arg_str(ticket, "category_1"),
        custom_fields: Vec::new(),
        assets: Vec::new(),
    }
}

// ---------------------------------------------------------------------------
// Indexing one ticket
// ---------------------------------------------------------------------------

/// What indexing needs of a fetched ticket: its text, the hash that tells
/// whether it changed, and the metadata that prefixes its chunks.
pub struct TicketFacts {
    pub summary: String,
    pub details: String,
    pub content_hash: String,
    pub meta: TicketMetadataInput,
}

/// The facts of a fetched ticket.
pub fn ticket_facts(ticket: &JsonValue) -> (r: TicketFacts)
    ensures
        r.summary@ == str_or_empty(model(*ticket), "summary"@),
        r.details@ == str_or_empty(model(*ticket), "details"@),
        r.content_hash@ == hash_of(r.summary@ + "\n"@ + r.details@),
        opt_view(r.meta.client_name) == spec_arg_str(model(*ticket), "client_name"@),
        opt_view(r.meta.site_name) == spec_arg_str(model(*ticket), "site_name"@),
        opt_view(r.meta.agent_name) == spec_arg_str(model(*ticket), "agent_name"@),
        opt_view(r.meta.team) == spec_arg_str(model(*ticket), "team"@),
        opt_view(r.meta.status) == spec_arg_str(model(*ticket), "status"@),
        opt_view(r.meta.priority) == spec_arg_str(model(*ticket), "priority"@),
        opt_view(r.meta.category) == spec_arg_str(model(*ticket), "category_1"@),
        r.meta.custom_fields@.len() == 0,
        r.meta.assets@.len() == 0,
{
    let (summary, details) = ticket_text(ticket);
    let content_hash = ticket_content_hash(summary.as_str(), details.as_str());
    let meta = ticket_metadata_from_json(ticket);
    TicketFacts { summary, details, content_hash, meta }
}

/// Where indexing one ticket stands: each state waits for the outcome of
/// the action that led to it.
pub enum EmbedState {
    /// The ticket is being fetched.
    AwaitTicket(i64),
    /// The stored content hash is being looked up.
    AwaitStoredHash(i64, TicketFacts),
    /// The ticket's actions are being fetched.
    AwaitActions(i64, TicketFacts),
    /// The chunk texts are being embedded.
    AwaitEmbeddings(i64, TicketFacts, Vec<Chunk>),
    /// The ticket row is being written.
    AwaitTicketStored(i64, Vec<Chunk>),
    /// The chunks are being written.
    AwaitChunksStored,
    /// Nothing is left to do.
    Done,
}

/// The outcome of the last action.
pub enum EmbedEvent {
    TicketFetched(Result<TicketFacts, String>),
    StoredHash(Result<Option<String>, String>),
    ActionsFetched(Result<Vec<ActionChunkInput>, String>),
    /// How many embedding vectors came back.
    Embedded(Result<usize, String>),
    TicketStored(Result<(), String>),
    ChunksStored(Result<(), String>),
}

/// What to do next.
pub enum EmbedAction {
    FetchTicket(i64),
    LookupStoredHash(i64),
    FetchActions(i64),
    /// Embed these texts, one vector each.
    Embed(Vec<String>),
    /// Write the ticket row from these facts.
    StoreTicket(i64, TicketFacts),
    /// Write these chunks with the vectors the embedder returned, in order.
    StoreChunks(i64, Vec<Chunk>),
    /// An overlap cut would split a character: the text cannot be chunked.
    Unchunkable,
    /// Indexing this ticket ended with this result.
    Finish(Result<(), String>),
}

pub enum EmbedStateView {
    AwaitTicket(i64),
    AwaitStoredHash(i64, TicketFacts),
    AwaitActions(i64, TicketFacts),
    AwaitEmbeddings(i64, TicketFacts, Seq<ChunkView>),
    AwaitTicketStored(i64, Seq<ChunkView>),
    AwaitChunksStored,
    Done,
}

pub enum EmbedEventView {
    TicketFetched(Result<TicketFacts, Seq<char>>),
    StoredHash(Result<Option<Seq<char>>, Seq<char>>),
    ActionsFetched(Result<Seq<ActionChunkInput>, Seq<char>>),
    Embedded(Result<usize, Seq<char>>),
    TicketStored(Result<(), Seq<char>>),
    ChunksStored(Result<(), Seq<char>>),
}

pub enum EmbedActionView {
    FetchTicket(i64),
    LookupStoredHash(i64),
    FetchActions(i64),
    Embed(Seq<Seq<char>>),
    StoreTicket(i64, TicketFacts),
    StoreChunks(i64, Seq<ChunkView>),
    Unchunkable,
    Finish(Result<(), Seq<char>>),
}

pub open spec fn err_view<T>(r: Result<T, String>) -> Result<T, Seq<char>> {
    match r {
        Ok(x) => Ok(x),
        Err(e) => Err(e@),
    }
}

impl View for EmbedState {
    type V = EmbedStateView;

    open spec fn view(&self) -> EmbedStateView {
        match self {
            EmbedState::AwaitTicket(id) => EmbedStateView::AwaitTicket(*id),
            EmbedState::AwaitStoredHash(id, f) => EmbedStateView::AwaitStoredHash(*id, *f),
            EmbedState::AwaitActions(id, f) => EmbedStateView::AwaitActions(*id, *f),
            EmbedState::AwaitEmbeddings(id, f, cs) => EmbedStateView::AwaitEmbeddings(*id, *f, chunk_views(cs@)),
            EmbedState::AwaitTicketStored(id, cs) => EmbedStateView::AwaitTicketStored(*id, chunk_views(cs@)),
            EmbedState::AwaitChunksStored => EmbedStateView::AwaitChunksStored,
            EmbedState::Done => EmbedStateView::Done,
        }
    }
}

impl View for EmbedEvent {
    type V = EmbedEventView;

    open spec fn view(&self) -> EmbedEventView {
        match self {
            EmbedEvent::TicketFetched(r) => EmbedEventView::TicketFetched(err_view(*r)),
            EmbedEvent::StoredHash(r) => EmbedEventView::StoredHash(
                match r {
                    Ok(h) => Ok(opt_view(*h)),
                    Err(e) => Err(e@),
                },
            ),
            EmbedEvent::ActionsFetched(r) => EmbedEventView::ActionsFetched(
                match r {
                    Ok(a) => Ok(a@),
                    Err(e) => Err(e@),
                },
            ),
            EmbedEvent::Embedded(r) => EmbedEventView::Embedded(err_view(*r)),
            EmbedEvent::TicketStored(r) => EmbedEventView::TicketStored(err_view(*r)),
            EmbedEvent::ChunksStored(r) => EmbedEventView::ChunksStored(err_view(*r)),
        }
    }
}

pub open spec fn strings_view(v: Seq<String>) -> Seq<Seq<char>> {
    v.map_values(|s: String| s@)
}

impl View for EmbedAction {
    type V = EmbedActionView;

    open spec fn view(&self) -> EmbedActionView {
        match self {
            EmbedAction::FetchTicket(id) => EmbedActionView::FetchTicket(*id),
            EmbedAction::LookupStoredHash(id) => EmbedActionView::LookupStoredHash(*id),
            EmbedAction::FetchActions(id) => EmbedActionView::FetchActions(*id),
            EmbedAction::Embed(texts) => EmbedActionView::Embed(strings_view(texts@)),
            EmbedAction::StoreTicket(id, f) => EmbedActionView::StoreTicket(*id, *f),
            EmbedAction::StoreChunks(id, cs) => EmbedActionView::StoreChunks(*id, chunk_views(cs@)),
            EmbedAction::Unchunkable => EmbedActionView::Unchunkable,
            EmbedAction::Finish(r) => EmbedActionView::Finish(err_view(*r)),
        }
    }
}

/// Whether `ev` answers the action that led to `s`.
pub open spec fn embed_event_fits(s: EmbedStateView, ev: EmbedEventView) -> bool {
    match s {
        EmbedStateView::AwaitTicket(_) => ev is TicketFetched,
        EmbedStateView::AwaitStoredHash(_, _) => ev is StoredHash,
        EmbedStateView::AwaitActions(_, _) => ev is ActionsFetched,
        EmbedStateView::AwaitEmbeddings(_, _, _) => ev is Embedded,
        EmbedStateView::AwaitTicketStored(_, _) => ev is TicketStored,
        EmbedStateView::AwaitChunksStored => ev is ChunksStored,
        EmbedStateView::Done => false,
    }
}

/// The texts handed to the embedder: the chunks' contents, in order.
pub open spec fn chunk_contents(cs: Seq<ChunkView>) -> Seq<Seq<char>> {
    cs.map_values(|c: ChunkView| c.content)
}

/// The chunks of a ticket once its actions are known (a failed fetch of the
/// actions counts as none).
pub open spec fn after_actions(id: i64, f: TicketFacts, acts: Seq<ActionChunkInput>) -> (
    EmbedStateView,
    EmbedActionView,
) {
    if !ticket_chunking_is_safe(id, f.summary@, f.details@, acts, f.meta) {
        (EmbedStateView::Done, EmbedActionView::Unchunkable)
    } else {
        let cs = spec_chunk_ticket(id, f.summary@, f.details@, acts, f.meta);
        if cs.len() == 0 {
            (EmbedStateView::Done, EmbedActionView::Finish(Ok(())))
        } else {
            (EmbedStateView::AwaitEmbeddings(id, f, cs), EmbedActionView::Embed(chunk_contents(cs)))
        }
    }
}

/// One step of indexing a ticket: fetch it; stop if its content hash is
/// the one already stored; fetch its actions; chunk; stop if there is
/// nothing to embed; embed the chunk texts; fail on a count mismatch before
/// writing anything; write the ticket row, then the chunks. Any failed
/// fetch, embedding or write ends the run with its error, except the hash
/// lookup and the action fetch, whose failures are passed over.
pub open spec fn spec_embed_step(s: EmbedStateView, ev: EmbedEventView) -> (EmbedStateView, EmbedActionView) {
    match (s, ev) {
        (EmbedStateView::AwaitTicket(id), EmbedEventView::TicketFetched(r)) => match r {
            Ok(f) => (EmbedStateView::AwaitStoredHash(id, f), EmbedActionView::LookupStoredHash(id)),
            Err(e) => (EmbedStateView::Done, EmbedActionView::Finish(Err(e))),
        },
        (EmbedStateView::AwaitStoredHash(id, f), EmbedEventView::StoredHash(r)) => {
            if r matches Ok(Some(h)) && h == f.content_hash@ {
                (EmbedStateView::Done, EmbedActionView::Finish(Ok(())))
            } else {
                (EmbedStateView::AwaitActions(id, f), EmbedActionView::FetchActions(id))
            }
        },
        (EmbedStateView::AwaitActions(id, f), EmbedEventView::ActionsFetched(r)) => match r {
            Ok(acts) => after_actions(id, f, acts),
            Err(_) => after_actions(id, f, Seq::empty()),
        },
        (EmbedStateView::AwaitEmbeddings(id, f, cs), EmbedEventView::Embedded(r)) => match r {
            Err(e) => (EmbedStateView::Done, EmbedActionView::Finish(Err(e))),
            Ok(n) => if n != cs.len() {
                (EmbedStateView::Done, EmbedActionView::Finish(Err(count_mismatch_text(cs.len() as int, n as int))))
            } else {
                (EmbedStateView::AwaitTicketStored(id, cs), EmbedActionView::StoreTicket(id, f))
            },
        },
        (EmbedStateView::AwaitTicketStored(id, cs), EmbedEventView::TicketStored(r)) => match r {
            Err(e) => (EmbedStateView::Done, EmbedActionView::Finish(Err(e))),
            Ok(_) => (EmbedStateView::AwaitChunksStored, EmbedActionView::StoreChunks(id, cs)),
        },
        (_, EmbedEventView::ChunksStored(r)) => (EmbedStateView::Done, EmbedActionView::Finish(r)),
        _ => (EmbedStateView::Done, EmbedActionView::Finish(Ok(()))),
    }
}

/// Starts indexing ticket `ticket_id`: the first action fetches it.
pub fn embed_start(ticket_id: i64) -> (r: (EmbedState, EmbedAction))
    ensures
        r.0@ == EmbedStateView::AwaitTicket(ticket_id),
        r.1@ == EmbedActionView::FetchTicket(ticket_id),
{
    (EmbedState::AwaitTicket(ticket_id), EmbedAction::FetchTicket(ticket_id))
}

fn chunk_texts(cs: &Vec<Chunk>) -> (r: Vec<String>)
    ensures
        strings_view(r@) == chunk_contents(chunk_views(cs@)),
{
    let mut out: Vec<String> = Vec::new();
    let mut i: usize = 0;
    while i < cs.len()
        invariant
            0 <= i <= cs@.len(),
            out@.len() == i,
            forall|j: int| 0 <= j < i ==> (#[trigger] out@[j])@ == cs@[j].content@,
        decreases cs@.len() - i,
    {
        out.push(cs[i].content.clone());
        i = i + 1;
    }
    proof {
        assert(strings_view(out@) =~= chunk_contents(chunk_views(cs@)));
    }
    out
}

fn embed_after_actions(id: i64, f: TicketFacts, acts: &Vec<ActionChunkInput>) -> (r: (EmbedState, EmbedAction))
    ensures
        (r.0@, r.1@) == after_actions(id, f, acts@),
{
    match try_chunk_ticket(id, f.summary.as_str(), f.details.as_str(), acts.as_slice(), &f.meta) {
        None => (EmbedState::Done, EmbedAction::Unchunkable),
        Some(cs) => {
            if cs.len() == 0 {
                (EmbedState::Done, EmbedAction::Finish(Ok(())))
            } else {
                let texts = chunk_texts(&cs);
                (EmbedState::AwaitEmbeddings(id, f, cs), EmbedAction::Embed(texts))
            }
        },
    }
}

/// Takes indexing one ticket a step further, given the outcome of the last
/// action.
pub fn embed_step(s: EmbedState, ev: EmbedEvent) -> (r: (EmbedState, EmbedAction))
    requires
        embed_event_fits(s@, ev@),
    ensures
        (r.0@, r.1@) == spec_embed_step(s@, ev@),
{
    match s {
        EmbedState::AwaitTicket(id) => match ev {
            EmbedEvent::TicketFetched(Ok(f)) => (EmbedState::AwaitStoredHash(id, f), EmbedAction::LookupStoredHash(id)),
            EmbedEvent::TicketFetched(Err(e)) => (EmbedState::Done, EmbedAction::Finish(Err(e))),
            _ => (EmbedState::Done, EmbedAction::Finish(Ok(()))),
        },
        EmbedState::AwaitStoredHash(id, f) => match ev {
            EmbedEvent::StoredHash(r) => {
                let unchanged = match &r {
                    Ok(Some(h)) => str_eq(h.as_str(), f.content_hash.as_str()),
                    _ => false,
                };
                if unchanged {
                    (EmbedState::Done, EmbedAction::Finish(Ok(())))
                } else {
                    (EmbedState::AwaitActions(id, f), EmbedAction::FetchActions(id))
                }
            },
            _ => (EmbedState::Done, EmbedAction::Finish(Ok(()))),
        },
        EmbedState::AwaitActions(id, f) => match ev {
            EmbedEvent::ActionsFetched(Ok(acts)) => embed_after_actions(id, f, &acts),
            EmbedEvent::ActionsFetched(Err(_)) => {
                let none: Vec<ActionChunkInput> = Vec::new();
                embed_after_actions(id, f, &none)
            },
            _ => (EmbedState::Done, EmbedAction::Finish(Ok(()))),
        },
        EmbedState::AwaitEmbeddings(id, f, cs) => match ev {
            EmbedEvent::Embedded(Err(e)) => (EmbedState::Done, EmbedAction::Finish(Err(e))),
            EmbedEvent::Embedded(Ok(n)) => match embedding_count_error(cs.len(), n) {
                Some(msg) => (EmbedState::Done, EmbedAction::Finish(Err(msg))),
                None => (EmbedState::AwaitTicketStored(id, cs), EmbedAction::StoreTicket(id, f)),
            },
            _ => (EmbedState::Done, EmbedAction::Finish(Ok(()))),
        },
        EmbedState::AwaitTicketStored(id, cs) => match ev {
            EmbedEvent::TicketStored(Err(e)) => (EmbedState::Done, EmbedAction::Finish(Err(e))),
            EmbedEvent::TicketStored(Ok(())) => (EmbedState::AwaitChunksStored, EmbedAction::StoreChunks(id, cs)),
            _ => (EmbedState::Done, EmbedAction::Finish(Ok(()))),
        },
        EmbedState::AwaitChunksStored => match ev {
            EmbedEvent::ChunksStored(r) => (EmbedState::Done, EmbedAction::Finish(r)),
            _ => (EmbedState::Done, EmbedAction::Finish(Ok(()))),
        },
        EmbedState::Done => (EmbedState::Done, EmbedAction::Finish(Ok(()))),
    }
}

/// A run that has ended accepts no further outcome: nothing is fetched or
/// written after the step that finishes it.
pub proof fn lemma_finished_run_takes_no_event(ev: EmbedEventView)
    ensures
        !embed_event_fits(EmbedStateView::Done, ev),
{
}

/// A ticket whose stored content hash equals its current one is skipped:
/// the run ends successfully before its actions are fetched or anything
/// is embedded or written.
pub proof fn lemma_unchanged_ticket_is_skipped(id: i64, f: TicketFacts, stored: Seq<char>)
    requires
        stored == f.content_hash@,
    ensures
        spec_embed_step(
            EmbedStateView::AwaitStoredHash(id, f),
            EmbedEventView::StoredHash(Ok(Some(stored))),
        ) == (EmbedStateView::Done, EmbedActionView::Finish(Ok(()))),
{
}

/// When the embedder returns a different number of vectors than it was
/// given texts, the run ends with the mismatch error and nothing is written.
pub proof fn lemma_count_mismatch_writes_nothing(id: i64, f: TicketFacts, cs: Seq<ChunkView>, n: usize)
    requires
        n != cs.len(),
    ensures
        spec_embed_step(EmbedStateView::AwaitEmbeddings(id, f, cs), EmbedEventView::Embedded(Ok(n))) == (
            EmbedStateView::Done,
            EmbedActionView::Finish(Err(count_mismatch_text(cs.len() as int, n as int))),
        ),
{
}

/// The texts handed to the embedder are the contents of the ticket's
/// chunks, in order, and the chunks later written are those same chunks.
pub proof fn lemma_embedded_texts_are_chunk_contents(id: i64, f: TicketFacts, acts: Seq<ActionChunkInput>)
    requires
        ticket_chunking_is_safe(id, f.summary@, f.details@, acts, f.meta),
        spec_chunk_ticket(id, f.summary@, f.details@, acts, f.meta).len() > 0,
    ensures
        ({
            let cs = spec_chunk_ticket(id, f.summary@, f.details@, acts, f.meta);
            &&& spec_embed_step(EmbedStateView::AwaitActions(id, f), EmbedEventView::ActionsFetched(Ok(acts)))
                == (EmbedStateView::AwaitEmbeddings(id, f, cs), EmbedActionView::Embed(chunk_contents(cs)))
            &&& spec_embed_step(
                EmbedStateView::AwaitTicketStored(id, cs),
                EmbedEventView::TicketStored(Ok(())),
            ) == (EmbedStateView::AwaitChunksStored, EmbedActionView::StoreChunks(id, cs))
        }),
{
}

} // verus!
