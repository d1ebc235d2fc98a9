use vstd::prelude::*;

use crate::catalog::{json_str, push_member};
use crate::json::{
    JsonEntry, JsonModel, JsonValue, build_site_address, copy_json, get, model, set_member,
    spec_get, spec_set_member, spec_site_address, lemma_get_after_set, lookup,
};

verus! {

// ---------------------------------------------------------------------------
// Bodies of the HaloPSA write requests
// ---------------------------------------------------------------------------

/// The texts of a list of field names.
pub open spec fn name_views(names: Seq<&str>) -> Seq<Seq<char>> {
    names.map_values(|n: &str| n@)
}

/// `target` with every member of `args` named in `fields` copied into it,
/// in order, where `args` has it (`target[f] = args[f].clone()`).
pub open spec fn spec_copy_members(target: JsonModel, args: JsonModel, fields: Seq<Seq<char>>) -> JsonModel
    decreases fields.len(),
{
    if fields.len() == 0 {
        target
    } else {
        let t = spec_copy_members(target, args, fields.drop_last());
        match spec_get(args, fields.last()) {
            Some(v) => spec_set_member(t, fields.last(), v),
            None => t,
        }
    }
}

fn copy_members(target: &mut JsonValue, args: &JsonValue, fields: &[&str])
    ensures
        model(*final(target)) == spec_copy_members(model(*old(target)), model(*args), name_views(fields@)),
{
    let ghost start = model(*target);
    let mut i: usize = 0;
    proof {
        assert(name_views(fields@).take(0) =~= Seq::<Seq<char>>::empty());
    }
    while i < fields.len()
        invariant
            0 <= i <= fields@.len(),
            model(*target) == spec_copy_members(start, model(*args), name_views(fields@).take(i as int)),
        decreases fields@.len() - i,
    {
        let f = fields[i];
        proof {
            let names = name_views(fields@);
            assert(names.take(i + 1).drop_last() =~= names.take(i as int));
            assert(names.take(i + 1).last() == f@);
        }
        match get(args, f) {
            Some(v) => {
                let c = copy_json(v);
                set_member(target, f, c);
            },
            None => {},
        }
        i = i + 1;
    }
    proof {
        assert(name_views(fields@).take(fields@.len() as int) =~= name_views(fields@));
    }
}

/// The fields `create_ticket` takes over from the call's arguments.
pub open spec fn ticket_create_fields() -> Seq<Seq<char>> {
    seq![
        "details"@,
        "tickettype_id"@,
        "site_id"@,
        "user_id"@,
        "agent_id"@,
        "team_id"@,
        "priority_id"@,
        "category_1"@,
        "category_2"@,
        "category_3"@,
    ]
}

/// The fields `update_ticket` takes over from the call's arguments.
pub open spec fn ticket_update_fields() -> Seq<Seq<char>> {
    seq![
        "summary"@,
        "details"@,
        "agent_id"@,
        "team_id"@,
        "status_id"@,
        "priority_id"@,
        "category_1"@,
        "category_2"@,
        "category_3"@,
    ]
}

/// The fields `create_site` takes over from the call's arguments.
pub open spec fn site_create_fields() -> Seq<Seq<char>> {
    seq!["sla_id"@, "timezone"@, "inactive"@]
}

/// A request body: HaloPSA's write endpoints take a list of records.
pub open spec fn one_record(m: JsonModel) -> JsonModel {
    JsonModel::Array(Seq::empty().push(m))
}

fn wrap_record(record: JsonValue) -> (r: JsonValue)
    ensures
        model(r) == one_record(model(record)),
{
    let mut items: Vec<JsonValue> = Vec::new();
    crate::catalog::push_item(&mut items, record);
    JsonValue::Array(items)
}

/// The new ticket: its summary and client, then the optional fields the
/// call gives.
pub open spec fn spec_ticket_create_record(summary: Seq<char>, client_id: i64, args: JsonModel) -> JsonModel {
    spec_copy_members(
        JsonModel::Object(
            Seq::empty().push(("summary"@, JsonModel::Str(summary))).push(("client_id"@, JsonModel::Int(client_id))),
        ),
        args,
        ticket_create_fields(),
    )
}

/// The body of `POST /api/Tickets` that creates a ticket.
pub fn create_ticket_request(summary: &str, client_id: i64, args: &JsonValue) -> (r: JsonValue)
    ensures
        model(r) == one_record(spec_ticket_create_record(summary@, client_id, model(*args))),
{
    let mut es: Vec<JsonEntry> = Vec::new();
    push_member(&mut es, "summary", json_str(summary));
    push_member(&mut es, "client_id", JsonValue::Int(client_id));
    let mut t = JsonValue::Object(es);
    let fields: [&str; 10] = [
        "details",
        "tickettype_id",
        "site_id",
        "user_id",
        "agent_id",
        "team_id",
        "priority_id",
        "category_1",
        "category_2",
        "category_3",
    ];
    proof {
        assert(name_views(fields@) =~= ticket_create_fields());
    }
    copy_members(&mut t, args, fields.as_slice());
    wrap_record(t)
}

/// The ticket update: the fields the call gives, then the ticket's id.
pub open spec fn spec_ticket_update_record(ticket_id: i64, args: JsonModel) -> JsonModel {
    spec_set_member(
        spec_copy_members(JsonModel::Object(Seq::empty()), args, ticket_update_fields()),
        "id"@,
        JsonModel::Int(ticket_id),
    )
}

/// The body of `POST /api/Tickets` that updates ticket `ticket_id`.
pub fn update_ticket_request(ticket_id: i64, args: &JsonValue) -> (r: JsonValue)
    ensures
        model(r) == one_record(spec_ticket_update_record(ticket_id, model(*args))),
{
    let es: Vec<JsonEntry> = Vec::new();
    let mut t = JsonValue::Object(es);
    proof {
        assert(model(t) == JsonModel::Object(Seq::empty()));
    }
    let fields: [&str; 9] = [
        "summary",
        "details",
        "agent_id",
        "team_id",
        "status_id",
        "priority_id",
        "category_1",
        "category_2",
        "category_3",
    ];
    proof {
        assert(name_views(fields@) =~= ticket_update_fields());
    }
    copy_members(&mut t, args, fields.as_slice());
    set_member(&mut t, "id", JsonValue::Int(ticket_id));
    wrap_record(t)
}

/// The new site: client and name, the optional fields the call gives, the
/// delivery address where the call gives one, and `issitedetails: true`.
pub open spec fn spec_site_create_record(client_id: i64, name: Seq<char>, args: JsonModel) -> JsonModel {
    let base = spec_copy_members(
        JsonModel::Object(
            Seq::empty().push(("client_id"@, JsonModel::Int(client_id))).push(("name"@, JsonModel::Str(name))),
        ),
        args,
        site_create_fields(),
    );
    let with_address = match spec_site_address(args) {
        Some(a) => spec_set_member(base, "delivery_address"@, a),
        None => base,
    };
    spec_set_member(with_address, "issitedetails"@, JsonModel::Bool(true))
}

/// The body of `POST /api/Site` that creates a site.
pub fn create_site_request(client_id: i64, name: &str, args: &JsonValue) -> (r: JsonValue)
    ensures
        model(r) == one_record(spec_site_create_record(client_id, name@, model(*args))),
{
    let mut es: Vec<JsonEntry> = Vec::new();
    push_member(&mut es, "client_id", JsonValue::Int(client_id));
    push_member(&mut es, "name", json_str(name));
    let mut site = JsonValue::Object(es);
    let fields: [&str; 3] = ["sla_id", "timezone", "inactive"];
    proof {
        assert(name_views(fields@) =~= site_create_fields());
    }
    copy_members(&mut site, args, fields.as_slice());
    match build_site_address(args) {
        Some(a) => set_member(&mut site, "delivery_address", a),
        None => {},
    }
    set_member(&mut site, "issitedetails", JsonValue::Bool(true));
    wrap_record(site)
}

/// A new action on a ticket: the note, its outcome and visibility, then the
/// workflow transition and new status where given.
pub open spec fn spec_action_record(
    ticket_id: i64,
    note: Seq<char>,
    outcome: Seq<char>,
    workflow_action_id: Option<i64>,
    status_id: Option<i64>,
    hidden_from_user: bool,
) -> JsonModel {
    let base = Seq::empty().push(("ticket_id"@, JsonModel::Int(ticket_id))).push(
        ("note"@, JsonModel::Str(note)),
    ).push(("outcome"@, JsonModel::Str(outcome))).push(("hiddenfromuser"@, JsonModel::Bool(hidden_from_user)));
    let with_workflow = match workflow_action_id {
        Some(w) => base.push(("workflow_subdetail_id"@, JsonModel::Int(w))),
        None => base,
    };
    let with_status = match status_id {
        Some(s) => with_workflow.push(("status_id"@, JsonModel::Int(s))),
        None => with_workflow,
    };
    JsonModel::Object(with_status)
}

/// The body of `POST /api/Actions` that adds an action to a ticket.
pub fn action_request(
    ticket_id: i64,
    note: &str,
    outcome: &str,
    workflow_action_id: Option<i64>,
    status_id: Option<i64>,
    hidden_from_user: bool,
) -> (r: JsonValue)
    ensures
        model(r) == one_record(
            spec_action_record(ticket_id, note@, outcome@, workflow_action_id, status_id, hidden_from_user),
        ),
{
    let mut es: Vec<JsonEntry> = Vec::new();
    push_member(&mut es, "ticket_id", JsonValue::Int(ticket_id));
    push_member(&mut es, "note", json_str(note));
    push_member(&mut es, "outcome", json_str(outcome));
    push_member(&mut es, "hiddenfromuser", JsonValue::Bool(hidden_from_user));
    match workflow_action_id {
        Some(w) => push_member(&mut es, "workflow_subdetail_id", JsonValue::Int(w)),
        None => {},
    }
    match status_id {
        Some(s) => push_member(&mut es, "status_id", JsonValue::Int(s)),
        None => {},
    }
    wrap_record(JsonValue::Object(es))
}

/// An edit of an existing action's note, and of its visibility where given.
pub open spec fn spec_action_update_record(
    ticket_id: i64,
    action_id: i64,
    note: Seq<char>,
    hidden_from_user: Option<bool>,
) -> JsonModel {
    let base = Seq::empty().push(("id"@, JsonModel::Int(action_id))).push(
        ("ticket_id"@, JsonModel::Int(ticket_id)),
    ).push(("note"@, JsonModel::Str(note)));
    JsonModel::Object(
        match hidden_from_user {
            Some(h) => base.push(("hiddenfromuser"@, JsonModel::Bool(h))),
            None => base,
        },
    )
}

/// The body of `POST /api/Actions` that edits action `action_id`.
pub fn update_action_request(ticket_id: i64, action_id: i64, note: &str, hidden_from_user: Option<bool>) -> (r:
    JsonValue)
    ensures
        model(r) == one_record(spec_action_update_record(ticket_id, action_id, note@, hidden_from_user)),
{
    let mut es: Vec<JsonEntry> = Vec::new();
    push_member(&mut es, "id", JsonValue::Int(action_id));
    push_member(&mut es, "ticket_id", JsonValue::Int(ticket_id));
    push_member(&mut es, "note", json_str(note));
    match hidden_from_user {
        Some(h) => push_member(&mut es, "hiddenfromuser", JsonValue::Bool(h)),
        None => {},
    }
    wrap_record(JsonValue::Object(es))
}

// ---------------------------------------------------------------------------
// What the request bodies hold
// ---------------------------------------------------------------------------

proof fn lemma_copy_members_get(target: JsonModel, args: JsonModel, fields: Seq<Seq<char>>, k: Seq<char>)
    requires
        target is Object,
    ensures
        spec_copy_members(target, args, fields) is Object,
        spec_get(spec_copy_members(target, args, fields), k) == if fields.contains(k) && spec_get(args, k) is Some {
            spec_get(args, k)
        } else {
            spec_get(target, k)
        },
    decreases fields.len(),
{
    if fields.len() > 0 {
        let init = fields.drop_last();
        let f = fields.last();
        lemma_copy_members_get(target, args, init, k);
        let t = spec_copy_members(target, args, init);
        match spec_get(args, f) {
            Some(v) => lemma_get_after_set(t, f, v, k),
            None => {},
        }
        if f != k {
            assert(fields.contains(k) ==> init.contains(k)) by {
                if fields.contains(k) {
                    let i = choose|i: int| 0 <= i < fields.len() && fields[i] == k;
                    assert(init[i] == k);
                }
            }
        }
        assert(init.contains(k) ==> fields.contains(k)) by {
            if init.contains(k) {
                let i = choose|i: int| 0 <= i < init.len() && init[i] == k;
                assert(fields[i] == k);
            }
        }
        if f == k {
            assert(fields[fields.len() - 1] == k);
        }
    }
}

/// One of the optional fields a created ticket takes from the arguments.
pub open spec fn is_ticket_create_field(k: Seq<char>) -> bool {
    k == "details"@ || k == "tickettype_id"@ || k == "site_id"@ || k == "user_id"@ || k == "agent_id"@
        || k == "team_id"@ || k == "priority_id"@ || k == "category_1"@ || k == "category_2"@
        || k == "category_3"@
}

/// One of the fields a ticket update takes from the arguments.
pub open spec fn is_ticket_update_field(k: Seq<char>) -> bool {
    k == "summary"@ || k == "details"@ || k == "agent_id"@ || k == "team_id"@ || k == "status_id"@
        || k == "priority_id"@ || k == "category_1"@ || k == "category_2"@ || k == "category_3"@
}


/// Law: a created ticket holds the summary and client it was given, and
/// each of `details`, `tickettype_id`, `site_id`, `user_id`, `agent_id`,
/// `team_id`, `priority_id`, `category_1`..`category_3` that the arguments
/// hold, with the arguments' value; it holds no other member.
pub proof fn lemma_created_ticket_members(summary: Seq<char>, client_id: i64, args: JsonModel, k: Seq<char>)
    ensures
        spec_get(spec_ticket_create_record(summary, client_id, args), "summary"@) == Some(JsonModel::Str(summary)),
        spec_get(spec_ticket_create_record(summary, client_id, args), "client_id"@) == Some(JsonModel::Int(client_id)),
        is_ticket_create_field(k) ==> spec_get(spec_ticket_create_record(summary, client_id, args), k) == (
        match spec_get(args, k) {
            Some(v) => Some(v),
            None => None,
        }),
        !is_ticket_create_field(k) && k != "summary"@ && k != "client_id"@ ==> spec_get(
            spec_ticket_create_record(summary, client_id, args),
            k,
        ) is None,
{
    reveal_strlit("summary");
    reveal_strlit("client_id");
    reveal_strlit("id");
    reveal_strlit("details");
    reveal_strlit("tickettype_id");
    reveal_strlit("site_id");
    reveal_strlit("user_id");
    reveal_strlit("agent_id");
    reveal_strlit("team_id");
    reveal_strlit("status_id");
    reveal_strlit("priority_id");
    reveal_strlit("category_1");
    reveal_strlit("category_2");
    reveal_strlit("category_3");
    let es = Seq::empty().push(("summary"@, JsonModel::Str(summary))).push(("client_id"@, JsonModel::Int(client_id)));
    let base = JsonModel::Object(es);
    let fields = ticket_create_fields();
    assert(fields.len() == 10);
    assert(es[0].0 == "summary"@ && es[1].0 == "client_id"@);
    lemma_base_lookup(es, k);
    lemma_base_lookup(es, "summary"@);
    lemma_base_lookup(es, "client_id"@);
    lemma_copy_members_get(base, args, fields, k);
    lemma_copy_members_get(base, args, fields, "summary"@);
    lemma_copy_members_get(base, args, fields, "client_id"@);
    assert(fields.contains(k) <==> is_ticket_create_field(k)) by {
        if fields.contains(k) {
            let i = choose|i: int| 0 <= i < fields.len() && fields[i] == k;
            assert(i == 0 || i == 1 || i == 2 || i == 3 || i == 4 || i == 5 || i == 6 || i == 7 || i == 8 || i == 9);
        }
        if is_ticket_create_field(k) {
            if k == "details"@ { assert(fields[0] == k); }
            if k == "tickettype_id"@ { assert(fields[1] == k); }
            if k == "site_id"@ { assert(fields[2] == k); }
            if k == "user_id"@ { assert(fields[3] == k); }
            if k == "agent_id"@ { assert(fields[4] == k); }
            if k == "team_id"@ { assert(fields[5] == k); }
            if k == "priority_id"@ { assert(fields[6] == k); }
            if k == "category_1"@ { assert(fields[7] == k); }
            if k == "category_2"@ { assert(fields[8] == k); }
            if k == "category_3"@ { assert(fields[9] == k); }
        }
    }
    assert forall|i: int| 0 <= i < fields.len() implies fields[i] != "summary"@ && fields[i] != "client_id"@ by {
        assert(i == 0 || i == 1 || i == 2 || i == 3 || i == 4 || i == 5 || i == 6 || i == 7 || i == 8 || i == 9);
        assert(fields[i].len() != 7 || fields[i][1] != 'u');
        assert(fields[i].len() != 9);
    }
}

proof fn lemma_base_lookup(es: Seq<(Seq<char>, JsonModel)>, k: Seq<char>)
    requires
        es.len() == 2,
    ensures
        es[0].0 == k ==> lookup(es, k) == Some(es[0].1),
        es[0].0 != k && es[1].0 == k ==> lookup(es, k) == Some(es[1].1),
        es[0].0 != k && es[1].0 != k ==> lookup(es, k) is None,
{
    reveal_with_fuel(lookup, 3);
    assert(es.drop_first()[0] == es[1]);
    assert(es.drop_first().drop_first().len() == 0);
}

/// Law: a ticket update sets `id` to the ticket's id and holds each of
/// `summary`, `details`, `agent_id`, `team_id`, `status_id`, `priority_id`,
/// `category_1`..`category_3` that the arguments hold, with the arguments'
/// value; it holds no other member.
pub proof fn lemma_ticket_update_members(ticket_id: i64, args: JsonModel, k: Seq<char>)
    ensures
        spec_get(spec_ticket_update_record(ticket_id, args), "id"@) == Some(JsonModel::Int(ticket_id)),
        is_ticket_update_field(k) ==> spec_get(spec_ticket_update_record(ticket_id, args), k) == (
        match spec_get(args, k) {
            Some(v) => Some(v),
            None => None,
        }),
        !is_ticket_update_field(k) && k != "id"@ ==> spec_get(spec_ticket_update_record(ticket_id, args), k) is None,
{
    reveal_strlit("summary");
    reveal_strlit("client_id");
    reveal_strlit("id");
    reveal_strlit("details");
    reveal_strlit("tickettype_id");
    reveal_strlit("site_id");
    reveal_strlit("user_id");
    reveal_strlit("agent_id");
    reveal_strlit("team_id");
    reveal_strlit("status_id");
    reveal_strlit("priority_id");
    reveal_strlit("category_1");
    reveal_strlit("category_2");
    reveal_strlit("category_3");
    let base = JsonModel::Object(Seq::empty());
    let fields = ticket_update_fields();
    assert(fields.len() == 9);
    lemma_copy_members_get(base, args, fields, k);
    let copied = spec_copy_members(base, args, fields);
    lemma_get_after_set(copied, "id"@, JsonModel::Int(ticket_id), k);
    assert(is_ticket_update_field(k) ==> k.len() != 2);
    assert(is_ticket_update_field(k) ==> k != "id"@);
    assert(spec_get(base, k) is None);
    assert(lookup(Seq::<(Seq<char>, JsonModel)>::empty(), k) is None);
    assert(fields.contains(k) <==> is_ticket_update_field(k)) by {
        if fields.contains(k) {
            let i = choose|i: int| 0 <= i < fields.len() && fields[i] == k;
            assert(i == 0 || i == 1 || i == 2 || i == 3 || i == 4 || i == 5 || i == 6 || i == 7 || i == 8);
        }
        if is_ticket_update_field(k) {
            if k == "summary"@ { assert(fields[0] == k); }
            if k == "details"@ { assert(fields[1] == k); }
            if k == "agent_id"@ { assert(fields[2] == k); }
            if k == "team_id"@ { assert(fields[3] == k); }
            if k == "status_id"@ { assert(fields[4] == k); }
            if k == "priority_id"@ { assert(fields[5] == k); }
            if k == "category_1"@ { assert(fields[6] == k); }
            if k == "category_2"@ { assert(fields[7] == k); }
            if k == "category_3"@ { assert(fields[8] == k); }
        }
    }
}

} // verus!
