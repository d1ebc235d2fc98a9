use vstd::prelude::*;

use crate::text::{concat_str, dec_int, extend_chars, hex_digit, push_dec_i64, string_of};
use crate::types::{Workflow, WorkflowAction, WorkflowStep};
use crate::util::{is_truncation_cut, truncate_str};
use crate::chunking::{split_chars, split_on, texts_of};
use crate::digest::{base64_url_nopad_decode, base64_url_nopad_decoded};
use crate::json::{JsonValue, model, models, spec_get, spec_as_u64, spec_as_i64, spec_arg_str, get, as_u64, as_i64, arg_str, JsonModel};
use vstd::string::StringSliceAdditionalSpecFns;
use vstd::utf8::encode_utf8;

verus! {

/// Largest API response body the client reads (50 MB).
pub const MAX_RESPONSE_SIZE: u64 = 52_428_800;

/// Longest part of an error body quoted in an error message (bytes).
pub const ERROR_PREVIEW_BYTES: usize = 500;

/// How serde_json writes one character inside a string literal: `"` and
/// `\` escaped with a backslash; backspace, tab, newline, form feed and
/// carriage return as `\b`, `\t`, `\n`, `\f`, `\r`; any other character
/// below U+0020 as `\u00XX` with lowercase hex digits; everything else as
/// it is.
pub open spec fn json_escape_char(c: char) -> Seq<char> {
    if c == '"' {
        seq!['\\', '"']
    } else if c == '\\' {
        seq!['\\', '\\']
    } else if c == '\u{8}' {
        seq!['\\', 'b']
    } else if c == '\t' {
        seq!['\\', 't']
    } else if c == '\n' {
        seq!['\\', 'n']
    } else if c == '\u{c}' {
        seq!['\\', 'f']
    } else if c == '\r' {
        seq!['\\', 'r']
    } else if (c as u32) < 0x20 {
        seq!['\\', 'u', '0', '0', hex_digit((c as u32 / 16) as nat), hex_digit((c as u32 % 16) as nat)]
    } else {
        seq![c]
    }
}

/// The characters of `s`, each written as `json_escape_char` gives.
pub open spec fn json_escaped(s: Seq<char>) -> Seq<char>
    decreases s.len(),
{
    if s.len() == 0 {
        Seq::empty()
    } else {
        json_escaped(s.drop_last()) + json_escape_char(s.last())
    }
}

/// The JSON string literal of a text, as serde_json writes it.
pub open spec fn json_string_literal(s: Seq<char>) -> Seq<char> {
    seq!['"'] + json_escaped(s) + seq!['"']
}

/// `serde_json::to_string` of a `&str`: the JSON literal above
/// (`format_escaped_str` with the escape table of `ser.rs`). Serializing a
/// string into memory cannot fail.
#[verifier::external_body]
fn json_quote(s: &str) -> (r: String)
    ensures
        r@ == json_string_literal(s@),
{
    serde_json::to_string(s).unwrap_or_default()
}

/// Filters for listing tickets.
pub struct TicketFilter {
    pub search: Option<String>,
    pub client_id: Option<i64>,
    pub agent_id: Option<i64>,
    pub team_id: Option<i64>,
    pub status_id: Option<i64>,
    pub tickettype_id: Option<i64>,
    pub open_only: bool,
    pub priority: Option<String>,
    pub ticketarea_id: Option<i64>,
    pub parent_id: Option<i64>,
}

impl Default for TicketFilter {
    /// No filter at all.
    fn default() -> (r: Self)
        ensures
            r.search is None && r.client_id is None && r.agent_id is None && r.team_id is None
                && r.status_id is None && r.tickettype_id is None && !r.open_only
                && r.priority is None && r.ticketarea_id is None && r.parent_id is None,
    {
        TicketFilter {
            search: None,
            client_id: None,
            agent_id: None,
            team_id: None,
            status_id: None,
            tickettype_id: None,
            open_only: false,
            priority: None,
            ticketarea_id: None,
            parent_id: None,
        }
    }
}

/// A HaloPSA `advanced_search` value with one "contains" filter
/// (filter_type 4): `[{"filter_name":…,"filter_type":4,"filter_value":…}]`,
/// keys in serde_json's sorted order.
pub open spec fn spec_advanced_search_filter(filter_name: Seq<char>, value: Seq<char>) -> Seq<char> {
    "[{\"filter_name\":"@ + json_string_literal(filter_name) + ",\"filter_type\":4,\"filter_value\":"@
        + json_string_literal(value) + "}]"@
}

/// Builds a HaloPSA advanced_search value.
pub fn advanced_search_filter(filter_name: &str, value: &str) -> (r: String)
    ensures
        r@ == spec_advanced_search_filter(filter_name@, value@),
{
    let mut v: Vec<char> = Vec::new();
    extend_chars(&mut v, "[{\"filter_name\":");
    extend_chars(&mut v, json_quote(filter_name).as_str());
    extend_chars(&mut v, ",\"filter_type\":4,\"filter_value\":");
    extend_chars(&mut v, json_quote(value).as_str());
    extend_chars(&mut v, "}]");
    proof {
        assert(v@ =~= spec_advanced_search_filter(filter_name@, value@));
    }
    string_of(&v)
}

/// `page_size` clamped to 1..=100, as the ticket list asks for it.
pub open spec fn clamp_page_size(page_size: i64) -> i64 {
    if page_size < 1 { 1 } else if page_size > 100 { 100 } else { page_size }
}

/// The page size a HaloPSA list request asks for: clamped to 1..=100.
pub fn clamped_page_size(page_size: i64) -> (r: i64)
    ensures
        r == clamp_page_size(page_size),
        1 <= r <= 100,
{
    if page_size < 1 {
        1
    } else if page_size > 100 {
        100
    } else {
        page_size
    }
}

/// One query parameter.
pub type QueryParam = (String, String);

pub open spec fn param_texts(ps: Seq<QueryParam>) -> Seq<(Seq<char>, Seq<char>)> {
    ps.map_values(|p: QueryParam| (p.0@, p.1@))
}

pub open spec fn opt_id_param(name: Seq<char>, v: Option<i64>) -> Seq<(Seq<char>, Seq<char>)> {
    match v {
        Some(id) => seq![(name, dec_int(id as int))],
        None => Seq::empty(),
    }
}

pub open spec fn base_params(page: i64, page_size: i64) -> Seq<(Seq<char>, Seq<char>)> {
    seq![
        ("pageinate"@, "true"@),
        ("page_no"@, dec_int(page as int)),
        ("page_size"@, dec_int(clamp_page_size(page_size) as int)),
        ("includecolumns"@, "true"@),
    ]
}

pub open spec fn search_param(search: Option<String>) -> Seq<(Seq<char>, Seq<char>)> {
    match search {
        Some(s) => seq![("search"@, s@)],
        None => Seq::empty(),
    }
}

pub open spec fn id_params_before(f: TicketFilter) -> Seq<(Seq<char>, Seq<char>)> {
    opt_id_param("client_id"@, f.client_id) + opt_id_param("agent_id"@, f.agent_id) + opt_id_param(
        "team_id"@,
        f.team_id,
    ) + opt_id_param("status_id"@, f.status_id) + opt_id_param("tickettype_id"@, f.tickettype_id)
}

pub open spec fn open_param(open_only: bool) -> Seq<(Seq<char>, Seq<char>)> {
    if open_only {
        seq![("open_only"@, "true"@)]
    } else {
        Seq::empty()
    }
}

pub open spec fn priority_param(priority: Option<String>) -> Seq<(Seq<char>, Seq<char>)> {
    match priority {
        Some(p) => seq![("advanced_search"@, spec_advanced_search_filter("priority"@, p@))],
        None => Seq::empty(),
    }
}

pub open spec fn id_params_after(f: TicketFilter) -> Seq<(Seq<char>, Seq<char>)> {
    opt_id_param("ticketarea_id"@, f.ticketarea_id) + opt_id_param("parent_id"@, f.parent_id)
}

/// The query of GET /api/Tickets for a page and a filter: pagination
/// (HaloPSA honours `page_size` only with `pageinate=true`), the clamped
/// page size, `includecolumns`, then each filter that is set, in the order
/// search, client, agent, team, status, ticket type, open-only, priority
/// (as an advanced search on the label), ticket area, parent.
pub open spec fn spec_ticket_query(page: i64, page_size: i64, f: TicketFilter) -> Seq<(Seq<char>, Seq<char>)> {
    base_params(page, page_size) + search_param(f.search) + id_params_before(f) + open_param(
        f.open_only,
    ) + priority_param(f.priority) + id_params_after(f)
}

fn dec_string(n: i64) -> (r: String)
    ensures
        r@ == dec_int(n as int),
{
    let mut v: Vec<char> = Vec::new();
    push_dec_i64(&mut v, n);
    proof {
        assert(v@ =~= dec_int(n as int));
    }
    string_of(&v)
}

fn push_param(ps: &mut Vec<QueryParam>, name: &str, value: String)
    ensures
        param_texts(final(ps)@) == param_texts(old(ps)@).push((name@, value@)),
{
    ps.push((name.to_owned(), value));
    proof {
        assert(param_texts(final(ps)@) =~= param_texts(old(ps)@).push((name@, value@)));
    }
}

fn push_opt_id(ps: &mut Vec<QueryParam>, name: &str, v: Option<i64>)
    ensures
        param_texts(final(ps)@) == param_texts(old(ps)@) + opt_id_param(name@, v),
{
    match v {
        Some(id) => {
            push_param(ps, name, dec_string(id));
            proof {
                assert(param_texts(final(ps)@) =~= param_texts(old(ps)@) + opt_id_param(name@, v));
            }
        },
        None => {
            proof {
                assert(param_texts(final(ps)@) =~= param_texts(old(ps)@) + opt_id_param(name@, v));
            }
        },
    }
}

fn push_base(ps: &mut Vec<QueryParam>, page: i64, page_size: i64)
    ensures
        param_texts(final(ps)@) == param_texts(old(ps)@) + base_params(page, page_size),
{
    let clamped = if page_size < 1 { 1 } else if page_size > 100 { 100 } else { page_size };
    push_param(ps, "pageinate", "true".to_owned());
    push_param(ps, "page_no", dec_string(page));
    push_param(ps, "page_size", dec_string(clamped));
    push_param(ps, "includecolumns", "true".to_owned());
    proof {
        assert(param_texts(final(ps)@) =~= param_texts(old(ps)@) + base_params(page, page_size));
    }
}

/// The pagination of a HaloPSA list request: `pageinate=true` (HaloPSA
/// honours `page_size` only with it), the page number and the page size
/// clamped to 1..=100.
pub open spec fn paging_params(page: i64, page_size: i64) -> Seq<(Seq<char>, Seq<char>)> {
    seq![
        ("pageinate"@, "true"@),
        ("page_no"@, dec_int(page as int)),
        ("page_size"@, dec_int(clamp_page_size(page_size) as int)),
    ]
}

/// The pagination parameters of a list request.
pub fn paging_query(page: i64, page_size: i64) -> (r: Vec<QueryParam>)
    ensures
        param_texts(r@) == paging_params(page, page_size),
{
    let mut ps: Vec<QueryParam> = Vec::new();
    push_param(&mut ps, "pageinate", "true".to_owned());
    push_param(&mut ps, "page_no", dec_string(page));
    push_param(&mut ps, "page_size", dec_string(clamped_page_size(page_size)));
    proof {
        assert(param_texts(ps@) =~= paging_params(page, page_size));
    }
    ps
}

fn push_search(ps: &mut Vec<QueryParam>, search: &Option<String>)
    ensures
        param_texts(final(ps)@) == param_texts(old(ps)@) + search_param(*search),
{
    match search {
        Some(s) => push_param(ps, "search", s.clone()),
        None => {},
    }
    proof {
        assert(param_texts(final(ps)@) =~= param_texts(old(ps)@) + search_param(*search));
    }
}

fn push_ids_before(ps: &mut Vec<QueryParam>, f: &TicketFilter)
    ensures
        param_texts(final(ps)@) == param_texts(old(ps)@) + id_params_before(*f),
{
    push_opt_id(ps, "client_id", f.client_id);
    push_opt_id(ps, "agent_id", f.agent_id);
    push_opt_id(ps, "team_id", f.team_id);
    push_opt_id(ps, "status_id", f.status_id);
    push_opt_id(ps, "tickettype_id", f.tickettype_id);
    proof {
        assert(param_texts(final(ps)@) =~= param_texts(old(ps)@) + id_params_before(*f));
    }
}

fn push_open_and_priority(ps: &mut Vec<QueryParam>, f: &TicketFilter)
    ensures
        param_texts(final(ps)@) == param_texts(old(ps)@) + open_param(f.open_only) + priority_param(
            f.priority,
        ),
{
    if f.open_only {
        push_param(ps, "open_only", "true".to_owned());
    }
    let ghost mid = param_texts(ps@);
    proof {
        assert(mid =~= param_texts(old(ps)@) + open_param(f.open_only));
    }
    match &f.priority {
        Some(p) => push_param(ps, "advanced_search", advanced_search_filter("priority", p.as_str())),
        None => {},
    }
    proof {
        assert(param_texts(final(ps)@) =~= mid + priority_param(f.priority));
    }
}

fn push_ids_after(ps: &mut Vec<QueryParam>, f: &TicketFilter)
    ensures
        param_texts(final(ps)@) == param_texts(old(ps)@) + id_params_after(*f),
{
    push_opt_id(ps, "ticketarea_id", f.ticketarea_id);
    push_opt_id(ps, "parent_id", f.parent_id);
    proof {
        assert(param_texts(final(ps)@) =~= param_texts(old(ps)@) + id_params_after(*f));
    }
}

/// The query parameters of a ticket list request.
pub fn ticket_query_params(page: i64, page_size: i64, filters: &TicketFilter) -> (r: Vec<QueryParam>)
    ensures
        param_texts(r@) == spec_ticket_query(page, page_size, *filters),
{
    let mut ps: Vec<QueryParam> = Vec::new();
    proof {
        assert(param_texts(ps@) =~= Seq::<(Seq<char>, Seq<char>)>::empty());
    }
    push_base(&mut ps, page, page_size);
    push_search(&mut ps, &filters.search);
    push_ids_before(&mut ps, filters);
    push_open_and_priority(&mut ps, filters);
    push_ids_after(&mut ps, filters);
    proof {
        assert(param_texts(ps@) =~= spec_ticket_query(page, page_size, *filters));
    }
    ps
}

proof fn lemma_concat_contains<A>(a: Seq<A>, b: Seq<A>, x: A)
    ensures
        a.contains(x) || b.contains(x) ==> (a + b).contains(x),
{
    if a.contains(x) {
        let i = choose|i: int| 0 <= i < a.len() && a[i] == x;
        assert((a + b)[i] == x);
    } else if b.contains(x) {
        let j = choose|j: int| 0 <= j < b.len() && b[j] == x;
        assert((a + b)[a.len() + j] == x);
    }
}

proof fn lemma_id_param_present(name: Seq<char>, v: Option<i64>)
    ensures
        v matches Some(id) ==> opt_id_param(name, v).contains((name, dec_int(id as int))),
{
    if let Some(id) = v {
        assert(opt_id_param(name, v)[0] == (name, dec_int(id as int)));
    }
}

/// Law: every id filter that is set reaches the query as its name and its
/// decimal value, and a filter with nothing set asks for exactly the page:
/// `pageinate=true`, the page number, the page size clamped to 1..=100 and
/// `includecolumns=true`.
pub proof fn lemma_query_keeps_each_filter(page: i64, page_size: i64, f: TicketFilter)
    ensures
        f.client_id matches Some(x) ==> spec_ticket_query(page, page_size, f).contains(("client_id"@, dec_int(x as int))),
        f.agent_id matches Some(x) ==> spec_ticket_query(page, page_size, f).contains(("agent_id"@, dec_int(x as int))),
        f.team_id matches Some(x) ==> spec_ticket_query(page, page_size, f).contains(("team_id"@, dec_int(x as int))),
        f.status_id matches Some(x) ==> spec_ticket_query(page, page_size, f).contains(("status_id"@, dec_int(x as int))),
        f.tickettype_id matches Some(x) ==> spec_ticket_query(page, page_size, f).contains(
            ("tickettype_id"@, dec_int(x as int)),
        ),
        f.ticketarea_id matches Some(x) ==> spec_ticket_query(page, page_size, f).contains(
            ("ticketarea_id"@, dec_int(x as int)),
        ),
        f.parent_id matches Some(x) ==> spec_ticket_query(page, page_size, f).contains(("parent_id"@, dec_int(x as int))),
        f.search is None && f.client_id is None && f.agent_id is None && f.team_id is None && f.status_id is None
            && f.tickettype_id is None && !f.open_only && f.priority is None && f.ticketarea_id is None
            && f.parent_id is None ==> spec_ticket_query(page, page_size, f) == seq![
            ("pageinate"@, "true"@),
            ("page_no"@, dec_int(page as int)),
            ("page_size"@, dec_int(if page_size < 1 { 1 } else if page_size > 100 { 100 } else { page_size as int })),
            ("includecolumns"@, "true"@),
        ],
{
    if let Some(x) = f.client_id {
        lemma_id_param_present("client_id"@, f.client_id);
        lemma_in_before(f, ("client_id"@, dec_int(x as int)));
    }
    if let Some(x) = f.agent_id {
        lemma_id_param_present("agent_id"@, f.agent_id);
        lemma_in_before(f, ("agent_id"@, dec_int(x as int)));
    }
    if let Some(x) = f.team_id {
        lemma_id_param_present("team_id"@, f.team_id);
        lemma_in_before(f, ("team_id"@, dec_int(x as int)));
    }
    if let Some(x) = f.status_id {
        lemma_id_param_present("status_id"@, f.status_id);
        lemma_in_before(f, ("status_id"@, dec_int(x as int)));
    }
    if let Some(x) = f.tickettype_id {
        lemma_id_param_present("tickettype_id"@, f.tickettype_id);
        lemma_in_before(f, ("tickettype_id"@, dec_int(x as int)));
    }
    if let Some(x) = f.ticketarea_id {
        lemma_id_param_present("ticketarea_id"@, f.ticketarea_id);
        lemma_in_after(f, ("ticketarea_id"@, dec_int(x as int)));
    }
    if let Some(x) = f.parent_id {
        lemma_id_param_present("parent_id"@, f.parent_id);
        lemma_in_after(f, ("parent_id"@, dec_int(x as int)));
    }
    if f.search is None && f.client_id is None && f.agent_id is None && f.team_id is None && f.status_id is None
        && f.tickettype_id is None && !f.open_only && f.priority is None && f.ticketarea_id is None
        && f.parent_id is None {
        assert(spec_ticket_query(page, page_size, f) =~= base_params(page, page_size));
    }
}

proof fn lemma_in_query(page: i64, page_size: i64, f: TicketFilter, x: (Seq<char>, Seq<char>))
    requires
        id_params_before(f).contains(x) || id_params_after(f).contains(x),
    ensures
        spec_ticket_query(page, page_size, f).contains(x),
{
    let head = base_params(page, page_size) + search_param(f.search);
    let before = id_params_before(f);
    let after = id_params_after(f);
    let mid = open_param(f.open_only) + priority_param(f.priority);
    assert(spec_ticket_query(page, page_size, f) =~= head + (before + (mid + after)));
    lemma_concat_contains(mid, after, x);
    lemma_concat_contains(before, mid + after, x);
    lemma_concat_contains(head, before + (mid + after), x);
}

proof fn lemma_in_before(f: TicketFilter, x: (Seq<char>, Seq<char>))
    requires
        opt_id_param("client_id"@, f.client_id).contains(x) || opt_id_param("agent_id"@, f.agent_id).contains(x)
            || opt_id_param("team_id"@, f.team_id).contains(x) || opt_id_param("status_id"@, f.status_id).contains(x)
            || opt_id_param("tickettype_id"@, f.tickettype_id).contains(x),
    ensures
        forall|page: i64, page_size: i64| #[trigger] spec_ticket_query(page, page_size, f).contains(x),
{
    let c = opt_id_param("client_id"@, f.client_id);
    let a = opt_id_param("agent_id"@, f.agent_id);
    let t = opt_id_param("team_id"@, f.team_id);
    let st = opt_id_param("status_id"@, f.status_id);
    let tt = opt_id_param("tickettype_id"@, f.tickettype_id);
    lemma_concat_contains(c, a, x);
    lemma_concat_contains(c + a, t, x);
    lemma_concat_contains(c + a + t, st, x);
    lemma_concat_contains(c + a + t + st, tt, x);
    assert(id_params_before(f).contains(x));
    assert forall|page: i64, page_size: i64| #[trigger] spec_ticket_query(page, page_size, f).contains(x) by {
        lemma_in_query(page, page_size, f, x);
    }
}

proof fn lemma_in_after(f: TicketFilter, x: (Seq<char>, Seq<char>))
    requires
        opt_id_param("ticketarea_id"@, f.ticketarea_id).contains(x) || opt_id_param("parent_id"@, f.parent_id).contains(x),
    ensures
        forall|page: i64, page_size: i64| #[trigger] spec_ticket_query(page, page_size, f).contains(x),
{
    lemma_concat_contains(opt_id_param("ticketarea_id"@, f.ticketarea_id), opt_id_param("parent_id"@, f.parent_id), x);
    assert(id_params_after(f).contains(x));
    assert forall|page: i64, page_size: i64| #[trigger] spec_ticket_query(page, page_size, f).contains(x) by {
        lemma_in_query(page, page_size, f, x);
    }
}

/// How many records a ticket page keeps: `page_size`, at least 1 (some
/// HaloPSA endpoints ignore the page size, so the list is cut client-side).
pub fn page_limit(page_size: i64) -> (r: usize)
    ensures
        r == (if page_size < 1 { 1 } else { page_size }) as usize,
{
    let n = if page_size < 1 { 1 } else { page_size };
    n as usize
}

/// `base_url` without trailing slashes (`str::trim_end_matches('/')`).
pub open spec fn trim_trailing_slashes(s: Seq<char>) -> Seq<char>
    decreases s.len(),
{
    if s.len() > 0 && s.last() == '/' {
        trim_trailing_slashes(s.drop_last())
    } else {
        s
    }
}

/// Normalizes a HaloPSA base URL by removing trailing slashes.
pub fn normalize_base_url(base_url: &str) -> (r: String)
    ensures
        r@ == trim_trailing_slashes(base_url@),
{
    let v = crate::text::chars_of(base_url);
    let mut n: usize = v.len();
    proof {
        assert(v@.take(n as int) =~= v@);
    }
    while n > 0 && v[n - 1] == '/'
        invariant
            0 <= n <= v@.len(),
            trim_trailing_slashes(v@) == trim_trailing_slashes(v@.take(n as int)),
        decreases n,
    {
        proof {
            assert(v@.take(n as int).drop_last() =~= v@.take(n - 1));
        }
        n = n - 1;
    }
    let mut out: Vec<char> = Vec::new();
    let mut i: usize = 0;
    while i < n
        invariant
            0 <= i <= n <= v@.len(),
            out@ == v@.take(i as int),
        decreases n - i,
    {
        out.push(v[i]);
        proof {
            assert(v@.take(i + 1) =~= v@.take(i as int).push(v@[i as int]));
        }
        i = i + 1;
    }
    string_of(&out)
}

/// `"{base_url}{path}"`, the URL of an API call.
pub fn api_url(base_url: &str, path: &str) -> (r: String)
    ensures
        r@ == base_url@ + path@,
{
    concat_str(base_url, path)
}

// ---------------------------------------------------------------------------
// Workflow transitions available to an agent
// ---------------------------------------------------------------------------

/// A transition is offered when agents may use it (`agentaction` unset or
/// at least 1) and it leaves the ticket's current step (or has no start
/// step, or the ticket's step is unknown).
pub open spec fn action_available(a: WorkflowAction, current_step: Option<i64>) -> bool {
    &&& match a.agentaction {
        Some(x) => x >= 1,
        None => true,
    }
    &&& match current_step {
        Some(cs) => a.start_step is None || a.start_step == Some(cs),
        None => true,
    }
}

/// The transitions of all steps, step by step in order.
pub open spec fn all_actions(steps: Seq<WorkflowStep>) -> Seq<WorkflowAction>
    decreases steps.len(),
{
    if steps.len() == 0 {
        Seq::empty()
    } else {
        all_actions(steps.drop_last()) + steps.last().actions@
    }
}

pub open spec fn available_pred(current_step: Option<i64>) -> spec_fn(WorkflowAction) -> bool {
    |a: WorkflowAction| action_available(a, current_step)
}

/// The transitions an agent may take from the ticket's current step, in
/// workflow order.
pub open spec fn spec_available_actions(w: Workflow, current_step: Option<i64>) -> Seq<WorkflowAction> {
    all_actions(w.steps@).filter(available_pred(current_step))
}

/// Selects the transitions available to agents at `current_step`.
pub fn available_actions(workflow: &Workflow, current_step: Option<i64>) -> (r: Vec<WorkflowAction>)
    ensures
        r@ == spec_available_actions(*workflow, current_step),
{
    broadcast use vstd::seq_lib::group_seq_properties;

    let mut out: Vec<WorkflowAction> = Vec::new();
    let mut s: usize = 0;
    proof {
        assert(workflow.steps@.take(0) =~= Seq::<WorkflowStep>::empty());
        assert(all_actions(Seq::<WorkflowStep>::empty()).filter(available_pred(current_step)) =~= Seq::<WorkflowAction>::empty());
    }
    while s < workflow.steps.len()
        invariant
            0 <= s <= workflow.steps@.len(),
            out@ == all_actions(workflow.steps@.take(s as int)).filter(available_pred(current_step)),
        decreases workflow.steps@.len() - s,
    {
        let step = &workflow.steps[s];
        let ghost done = all_actions(workflow.steps@.take(s as int));
        let mut k: usize = 0;
        proof {
            assert(step.actions@.take(0) =~= Seq::<WorkflowAction>::empty());
            assert(done + step.actions@.take(0) =~= done);
        }
        while k < step.actions.len()
            invariant
                0 <= k <= step.actions@.len(),
                out@ == (done + step.actions@.take(k as int)).filter(available_pred(current_step)),
            decreases step.actions@.len() - k,
        {
            let a = &step.actions[k];
            proof {
                assert(done + step.actions@.take(k + 1) =~= (done + step.actions@.take(k as int)).push(*a));
                (done + step.actions@.take(k as int)).lemma_filter_push(*a, available_pred(current_step));
            }
            let agent_ok = match a.agentaction {
                Some(x) => x >= 1,
                None => true,
            };
            let step_ok = match current_step {
                Some(cs) => a.start_step.is_none() || a.start_step == Some(cs),
                None => true,
            };
            if agent_ok && step_ok {
                out.push(a.duplicate());
            }
            k = k + 1;
        }
        proof {
            assert(step.actions@.take(k as int) =~= step.actions@);
            let t = workflow.steps@.take(s + 1);
            assert(t.drop_last() =~= workflow.steps@.take(s as int));
            assert(t.last() == *step);
        }
        s = s + 1;
    }
    proof {
        assert(workflow.steps@.take(s as int) =~= workflow.steps@);
    }
    out
}

/// Law: every transition offered is one of the workflow's own transitions
/// and is usable by an agent at the ticket's current step; every such
/// transition of the workflow is offered.
pub proof fn lemma_available_actions_exact(w: Workflow, current_step: Option<i64>)
    ensures
        forall|i: int|
            0 <= i < spec_available_actions(w, current_step).len() ==> {
                &&& action_available(#[trigger] spec_available_actions(w, current_step)[i], current_step)
                &&& all_actions(w.steps@).contains(spec_available_actions(w, current_step)[i])
            },
        forall|a: WorkflowAction|
            #[trigger] all_actions(w.steps@).contains(a) && action_available(a, current_step)
                ==> spec_available_actions(w, current_step).contains(a),
{
    broadcast use vstd::seq_lib::group_seq_properties;

    let all = all_actions(w.steps@);
    let pred = available_pred(current_step);
    assert forall|i: int| 0 <= i < spec_available_actions(w, current_step).len() implies {
        &&& action_available(#[trigger] spec_available_actions(w, current_step)[i], current_step)
        &&& all_actions(w.steps@).contains(spec_available_actions(w, current_step)[i])
    } by {
        let f = all.filter(pred);
        all.lemma_filter_pred(pred, i);
        assert(f.contains(f[i]));
        all.lemma_filter_contains_rev(pred, f[i]);
    }
    assert forall|a: WorkflowAction|
        #[trigger] all_actions(w.steps@).contains(a) && action_available(a, current_step)
            implies spec_available_actions(w, current_step).contains(a) by {
        let j = choose|j: int| 0 <= j < all.len() && all[j] == a;
        all.lemma_filter_contains(pred, j);
    }
}

/// `"{name} (id: {id})"`, how a ticket lists its available transitions.
pub fn action_label(a: &WorkflowAction) -> (r: String)
    ensures
        r@ == a.action_name@ + " (id: "@ + dec_int(a.id as int) + ")"@,
{
    let mut v: Vec<char> = Vec::new();
    extend_chars(&mut v, a.action_name.as_str());
    extend_chars(&mut v, " (id: ");
    push_dec_i64(&mut v, a.id);
    extend_chars(&mut v, ")");
    proof {
        assert(v@ =~= a.action_name@ + " (id: "@ + dec_int(a.id as int) + ")"@);
    }
    string_of(&v)
}

/// The ticket type a ticket's workflow hangs on (`tickettype_id` is
/// required).
pub fn require_ticket_type(tickettype_id: Option<i64>) -> (r: Result<i64, String>)
    ensures
        match tickettype_id {
            Some(t) => r == Ok::<i64, String>(t),
            None => r matches Err(e) && e@ == "Ticket has no tickettype_id"@,
        },
{
    match tickettype_id {
        Some(t) => Ok(t),
        None => Err("Ticket has no tickettype_id".to_owned()),
    }
}

// ---------------------------------------------------------------------------
// Responses of the HaloPSA API
// ---------------------------------------------------------------------------

/// The error for a response whose announced length is over
/// `MAX_RESPONSE_SIZE`: `"Response too large: {len} bytes"`; none otherwise.
pub fn check_response_size(content_length: Option<u64>) -> (r: Result<(), String>)
    ensures
        match content_length {
            Some(len) => if len > MAX_RESPONSE_SIZE {
                r matches Err(e) && e@ == "Response too large: "@ + dec_int(len as int) + " bytes"@
            } else {
                r is Ok
            },
            None => r is Ok,
        },
{
    match content_length {
        Some(len) => {
            if len > MAX_RESPONSE_SIZE {
                let mut v: Vec<char> = Vec::new();
                extend_chars(&mut v, "Response too large: ");
                crate::text::push_dec_u64(&mut v, len);
                extend_chars(&mut v, " bytes");
                proof {
                    assert(v@ =~= "Response too large: "@ + dec_int(len as int) + " bytes"@);
                }
                Err(string_of(&v))
            } else {
                Ok(())
            }
        },
        None => Ok(()),
    }
}

/// The error for a failed API call: `"HaloPSA API error {status}: {preview}"`,
/// where the preview is the body cut to at most `ERROR_PREVIEW_BYTES` bytes
/// at a character boundary (the body is attacker-influenced text).
pub fn api_error_message(status: &str, body: &str) -> (r: String)
    ensures
        exists|p: Seq<char>, end: int|
            {
                &&& is_truncation_cut(body.spec_bytes(), ERROR_PREVIEW_BYTES as int, end)
                &&& encode_utf8(p) == body.spec_bytes().subrange(0, end)
                &&& r@ == "HaloPSA API error "@ + status@ + ": "@ + p
            },
{
    let preview = truncate_str(body, ERROR_PREVIEW_BYTES);
    let head = concat_str("HaloPSA API error ", status);
    let head2 = concat_str(head.as_str(), ": ");
    let r = concat_str(head2.as_str(), preview);
    proof {
        let end = choose|end: int|
            is_truncation_cut(body.spec_bytes(), ERROR_PREVIEW_BYTES as int, end)
                && preview.spec_bytes() =~= body.spec_bytes().subrange(0, end);
        assert(encode_utf8(preview@) == body.spec_bytes().subrange(0, end));
        assert(r@ == "HaloPSA API error "@ + status@ + ": "@ + preview@);
    }
    r
}

/// How long before its expiry a cached service token is replaced (5 min).
pub const TOKEN_REFRESH_MARGIN_NANOS: u64 = 300_000_000_000;

/// A cached service token is reused while it expires more than five
/// minutes from now (instants in nanoseconds of a monotonic clock).
pub fn cached_token_usable(expires_at: u64, now: u64) -> (r: bool)
    ensures
        r == (expires_at > now + TOKEN_REFRESH_MARGIN_NANOS),
{
    expires_at >= now && expires_at - now > TOKEN_REFRESH_MARGIN_NANOS
}

/// The lifetime of a service token: `expires_in` seconds, 3600 where the
/// response gives none.
pub open spec fn spec_token_lifetime(data: JsonModel) -> u64 {
    match spec_get(data, "expires_in"@) {
        Some(x) => match spec_as_u64(x) {
            Some(n) => n,
            None => 3600,
        },
        None => 3600,
    }
}

/// Reads a client-credentials token response: the `access_token` string
/// (an error where there is none) and its lifetime in seconds.
pub fn parse_service_token(data: &JsonValue) -> (r: Result<(String, u64), String>)
    ensures
        match spec_get(model(*data), "access_token"@) {
            Some(JsonModel::Str(t)) => r matches Ok(p) && p.0@ == t && p.1 == spec_token_lifetime(
                model(*data),
            ),
            _ => r matches Err(e) && e@ == "No access_token in response"@,
        },
{
    let token = match get(data, "access_token") {
        Some(JsonValue::Str(t)) => t.clone(),
        _ => return Err("No access_token in response".to_owned()),
    };
    let lifetime = match get(data, "expires_in") {
        Some(x) => match as_u64(x) {
            Some(n) => n,
            None => 3600,
        },
        None => 3600,
    };
    Ok((token, lifetime))
}

/// When a token issued at `now` with a lifetime of `expires_in` seconds
/// expires (nanoseconds).
pub fn token_expiry(now: u64, expires_in: u64) -> (r: u64)
    requires
        now + expires_in * 1_000_000_000 <= u64::MAX,
    ensures
        r == now + expires_in * 1_000_000_000,
{
    assert(expires_in * 1_000_000_000 <= u64::MAX) by (nonlinear_arith)
        requires
            now + expires_in * 1_000_000_000 <= u64::MAX,
            now >= 0,
    ;
    now + expires_in * 1_000_000_000
}

/// The form of a client-credentials token request: grant type, client id
/// and secret, scope `all`, and the tenant where one is configured.
pub fn client_credentials_form(client_id: &str, client_secret: &str, tenant: Option<&str>) -> (r: Vec<(String, String)>)
    ensures
        r@.len() == if tenant is Some { 5int } else { 4int },
        r@[0].0@ == "grant_type"@ && r@[0].1@ == "client_credentials"@,
        r@[1].0@ == "client_id"@ && r@[1].1@ == client_id@,
        r@[2].0@ == "client_secret"@ && r@[2].1@ == client_secret@,
        r@[3].0@ == "scope"@ && r@[3].1@ == "all"@,
        tenant matches Some(t) ==> r@[4].0@ == "tenant"@ && r@[4].1@ == t@,
{
    let mut v: Vec<(String, String)> = Vec::new();
    v.push(("grant_type".to_owned(), "client_credentials".to_owned()));
    v.push(("client_id".to_owned(), client_id.to_owned()));
    v.push(("client_secret".to_owned(), client_secret.to_owned()));
    v.push(("scope".to_owned(), "all".to_owned()));
    match tenant {
        Some(t) => v.push(("tenant".to_owned(), t.to_owned())),
        None => {},
    }
    v
}

/// The payload bytes of a JWT: its middle part, Base64url-decoded, when the
/// token has exactly three dot-separated parts. Only for display; the
/// signature is not checked.
pub open spec fn spec_jwt_payload(token: Seq<char>) -> Option<Seq<u8>> {
    let parts = split_on(token, '.');
    if parts.len() != 3 {
        None
    } else {
        base64_url_nopad_decoded(encode_utf8(parts[1]))
    }
}

/// Extracts the claims payload of a JWT access token (the caller parses it
/// as JSON).
pub fn jwt_payload(token: &str) -> (r: Option<Vec<u8>>)
    ensures
        match r {
            Some(b) => spec_jwt_payload(token@) == Some(b@),
            None => spec_jwt_payload(token@) is None,
        },
{
    let parts = split_chars(token, '.');
    if parts.len() != 3 {
        return None;
    }
    let middle = string_of(&parts[1]);
    proof {
        assert(texts_of(parts@)[1] == parts@[1]@);
    }
    base64_url_nopad_decode(middle.as_str())
}

// ---------------------------------------------------------------------------
// The Projects ticket area
// ---------------------------------------------------------------------------

/// ASCII lowercase of a byte (`u8::to_ascii_lowercase`).
pub open spec fn ascii_lower(b: u8) -> u8 {
    if 0x41 <= b <= 0x5A {
        (b + 32) as u8
    } else {
        b
    }
}

/// `str::eq_ignore_ascii_case` on the UTF-8 bytes of two texts.
pub open spec fn eq_ignore_ascii_case(a: Seq<u8>, b: Seq<u8>) -> bool {
    a.len() == b.len() && forall|i: int| 0 <= i < a.len() ==> ascii_lower(#[trigger] a[i]) == ascii_lower(b[i])
}

/// Whether a ticket area is named "Projects" (any ASCII case).
pub open spec fn is_projects_area(area: JsonModel) -> bool {
    match spec_arg_str(area, "name"@) {
        Some(n) => eq_ignore_ascii_case(encode_utf8(n), "projects".spec_bytes()),
        None => false,
    }
}

/// The index of the first Projects area.
pub open spec fn first_projects_area(areas: Seq<JsonModel>) -> Option<int>
    decreases areas.len(),
{
    if areas.len() == 0 {
        None
    } else if is_projects_area(areas[0]) {
        Some(0)
    } else {
        match first_projects_area(areas.drop_first()) {
            Some(j) => Some(j + 1),
            None => None,
        }
    }
}

proof fn lemma_first_projects_area(areas: Seq<JsonModel>, i: int)
    requires
        0 <= i <= areas.len(),
        forall|j: int| 0 <= j < i ==> !is_projects_area(#[trigger] areas[j]),
    ensures
        i < areas.len() && is_projects_area(areas[i]) ==> first_projects_area(areas) == Some(i),
        i == areas.len() ==> first_projects_area(areas) is None,
    decreases i,
{
    if i > 0 {
        let t = areas.drop_first();
        assert forall|j: int| 0 <= j < i - 1 implies !is_projects_area(#[trigger] t[j]) by {
            assert(t[j] == areas[j + 1]);
        }
        lemma_first_projects_area(t, i - 1);
    }
}

/// The id of the first area named "Projects": its `id` as an integer, an
/// error when there is no such area or its id is not one.
pub open spec fn spec_projects_area_id(areas: Seq<JsonModel>) -> Option<i64> {
    match first_projects_area(areas) {
        Some(j) => match spec_get(areas[j], "id"@) {
            Some(x) => spec_as_i64(x),
            None => None,
        },
        None => None,
    }
}

fn eq_ignore_ascii_case_exec(a: &str, b: &str) -> (r: bool)
    ensures
        r == eq_ignore_ascii_case(a.spec_bytes(), b.spec_bytes()),
{
    let x = a.as_bytes();
    let y = b.as_bytes();
    if x.len() != y.len() {
        return false;
    }
    let mut i: usize = 0;
    while i < x.len()
        invariant
            x@ == a.spec_bytes(),
            y@ == b.spec_bytes(),
            x@.len() == y@.len(),
            0 <= i <= x@.len(),
            forall|j: int| 0 <= j < i ==> ascii_lower(#[trigger] x@[j]) == ascii_lower(y@[j]),
        decreases x@.len() - i,
    {
        let p = x[i];
        let q = y[i];
        let lp: u8 = if p >= 0x41 && p <= 0x5A { p + 32 } else { p };
        let lq: u8 = if q >= 0x41 && q <= 0x5A { q + 32 } else { q };
        if lp != lq {
            return false;
        }
        i = i + 1;
    }
    true
}

/// Finds the Projects ticket area among the areas HaloPSA lists.
pub fn projects_area_id(areas: &Vec<JsonValue>) -> (r: Result<i64, String>)
    ensures
        match spec_projects_area_id(models(areas@)) {
            Some(id) => r == Ok::<i64, String>(id),
            None => r matches Err(e) && e@ == "Could not find a ticket area named 'Projects'"@,
        },
{
    proof {
        crate::json::lemma_models_index(areas@);
    }
    let ghost ms = models(areas@);
    let mut i: usize = 0;
    while i < areas.len()
        invariant
            0 <= i <= areas@.len(),
            ms == models(areas@),
            ms.len() == areas@.len(),
            forall|j: int| 0 <= j < areas@.len() ==> #[trigger] ms[j] == model(areas@[j]),
            forall|j: int| 0 <= j < i ==> !is_projects_area(#[trigger] ms[j]),
        decreases areas@.len() - i,
    {
        let a = &areas[i];
        let named = match arg_str(a, "name") {
            Some(n) => eq_ignore_ascii_case_exec(n.as_str(), "projects"),
            None => false,
        };
        assert(named == is_projects_area(ms[i as int]));
        if named {
            proof {
                lemma_first_projects_area(ms, i as int);
            }
            let id = match get(a, "id") {
                Some(x) => as_i64(x),
                None => None,
            };
            return match id {
                Some(v) => Ok(v),
                None => Err("Could not find a ticket area named 'Projects'".to_owned()),
            };
        }
        i = i + 1;
    }
    proof {
        lemma_first_projects_area(ms, i as int);
    }
    Err("Could not find a ticket area named 'Projects'".to_owned())
}

} // verus!
