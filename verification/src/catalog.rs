use vstd::prelude::*;

use crate::json::{JsonEntry, JsonModel, JsonValue, model, models, entry_models, spec_get};
use crate::schemas::{
    HALO_TOOL_COUNT, halo_tool_name, halo_tool_description, halo_tool_schema, halo_tool_name_str,
    halo_tool_description_str, halo_tool_schema_value, semantic_tool_name, semantic_tool_description,
    semantic_tool_schema, semantic_tool_name_str, semantic_tool_description_str,
    semantic_tool_schema_value,
};
use crate::tools::{spec_tool_route, is_halo_tool};

verus! {

// ---------------------------------------------------------------------------
// Building JSON values
// ---------------------------------------------------------------------------

/// A JSON string holding `s`.
pub fn json_str(s: &str) -> (r: JsonValue)
    ensures
        model(r) == JsonModel::Str(s@),
{
    JsonValue::Str(s.to_owned())
}

/// Appends the member `key: v` to an object's members.
pub fn push_member(members: &mut Vec<JsonEntry>, key: &str, v: JsonValue)
    ensures
        entry_models(final(members)@) == entry_models(old(members)@).push((key@, model(v))),
{
    let ghost before = members@;
    let e = JsonEntry { key: key.to_owned(), value: v };
    members.push(e);
    proof {
        assert(members@.subrange(0, members@.len() - 1) =~= before);
    }
}

/// Appends `v` to an array's items.
pub fn push_item(items: &mut Vec<JsonValue>, v: JsonValue)
    ensures
        models(final(items)@) == models(old(items)@).push(model(v)),
{
    let ghost before = items@;
    items.push(v);
    proof {
        assert(items@.subrange(0, items@.len() - 1) =~= before);
    }
}

/// A schema property `{"type": ty, "description": desc}`.
pub open spec fn spec_prop(ty: Seq<char>, desc: Seq<char>) -> JsonModel {
    JsonModel::Object(Seq::empty().push(("type"@, JsonModel::Str(ty))).push(("description"@, JsonModel::Str(desc))))
}

/// A schema property with a default: `{"type": ty, "description": desc, "default": d}`.
pub open spec fn spec_prop_default(ty: Seq<char>, desc: Seq<char>, d: JsonModel) -> JsonModel {
    JsonModel::Object(
        Seq::empty().push(("type"@, JsonModel::Str(ty))).push(("description"@, JsonModel::Str(desc))).push(
            ("default"@, d),
        ),
    )
}

/// Builds `{"type": ty, "description": desc}`.
pub fn prop(ty: &str, desc: &str) -> (r: JsonValue)
    ensures
        model(r) == spec_prop(ty@, desc@),
{
    let mut es: Vec<JsonEntry> = Vec::new();
    push_member(&mut es, "type", json_str(ty));
    push_member(&mut es, "description", json_str(desc));
    JsonValue::Object(es)
}

/// Builds `{"type": ty, "description": desc, "default": d}`.
pub fn prop_default(ty: &str, desc: &str, d: JsonValue) -> (r: JsonValue)
    ensures
        model(r) == spec_prop_default(ty@, desc@, model(d)),
{
    let mut es: Vec<JsonEntry> = Vec::new();
    push_member(&mut es, "type", json_str(ty));
    push_member(&mut es, "description", json_str(desc));
    push_member(&mut es, "default", d);
    JsonValue::Object(es)
}

// ---------------------------------------------------------------------------
// The tool catalog
// ---------------------------------------------------------------------------

/// A tool as `tools/list` describes it:
/// `{"name": name, "description": description, "inputSchema": schema}`.
pub open spec fn tool_model(name: Seq<char>, description: Seq<char>, schema: JsonModel) -> JsonModel {
    JsonModel::Object(
        Seq::empty().push(("name"@, JsonModel::Str(name))).push(
            ("description"@, JsonModel::Str(description)),
        ).push(("inputSchema"@, schema)),
    )
}

/// The name a tool description gives, if it gives one.
pub open spec fn tool_name_of(t: JsonModel) -> Option<Seq<char>> {
    match spec_get(t, "name"@) {
        Some(JsonModel::Str(s)) => Some(s),
        _ => None,
    }
}

/// The `i`-th HaloPSA tool.
pub open spec fn halo_tool_def(i: int) -> JsonModel {
    tool_model(halo_tool_name(i), halo_tool_description(i), halo_tool_schema(i))
}

/// The `i`-th semantic tool.
pub open spec fn semantic_tool_def(i: int) -> JsonModel {
    tool_model(semantic_tool_name(i), semantic_tool_description(i), semantic_tool_schema(i))
}

/// The HaloPSA tools, in the order they are listed.
pub open spec fn spec_tool_definitions() -> Seq<JsonModel> {
    Seq::new(HALO_TOOL_COUNT as nat, |i: int| halo_tool_def(i))
}

/// The three semantic tools.
pub open spec fn spec_semantic_tool_definitions() -> Seq<JsonModel> {
    Seq::new(3, |i: int| semantic_tool_def(i))
}

/// What `tools/list` answers: the HaloPSA tools, then the semantic tools
/// when semantic search is enabled.
pub open spec fn spec_listed_tools(semantic_enabled: bool) -> Seq<JsonModel> {
    if semantic_enabled {
        spec_tool_definitions() + spec_semantic_tool_definitions()
    } else {
        spec_tool_definitions()
    }
}

fn tool_value(name: &str, description: &str, schema: JsonValue) -> (r: JsonValue)
    ensures
        model(r) == tool_model(name@, description@, model(schema)),
{
    let mut es: Vec<JsonEntry> = Vec::new();
    push_member(&mut es, "name", json_str(name));
    push_member(&mut es, "description", json_str(description));
    push_member(&mut es, "inputSchema", schema);
    JsonValue::Object(es)
}

proof fn lemma_models_push(s: Seq<JsonValue>, v: JsonValue)
    ensures
        models(s.push(v)) == models(s).push(model(v)),
{
    assert(s.push(v).subrange(0, s.len() as int) =~= s);
}

/// The descriptions of the HaloPSA tools.
pub fn tool_definitions() -> (r: Vec<JsonValue>)
    ensures
        models(r@) == spec_tool_definitions(),
{
    let mut out: Vec<JsonValue> = Vec::new();
    let mut i: usize = 0;
    proof {
        assert(models(out@) =~= Seq::new(0, |j: int| halo_tool_def(j)));
    }
    while i < HALO_TOOL_COUNT
        invariant
            0 <= i <= HALO_TOOL_COUNT,
            models(out@) == Seq::new(i as nat, |j: int| halo_tool_def(j)),
        decreases HALO_TOOL_COUNT - i,
    {
        let t = tool_value(halo_tool_name_str(i), halo_tool_description_str(i), halo_tool_schema_value(i));
        let ghost before = out@;
        out.push(t);
        proof {
            lemma_models_push(before, t);
            assert(Seq::new((i + 1) as nat, |j: int| halo_tool_def(j)) =~= Seq::new(
                i as nat,
                |j: int| halo_tool_def(j),
            ).push(halo_tool_def(i as int)));
        }
        i = i + 1;
    }
    out
}

/// The descriptions of the semantic tools.
pub fn semantic_tool_definitions() -> (r: Vec<JsonValue>)
    ensures
        models(r@) == spec_semantic_tool_definitions(),
{
    let mut out: Vec<JsonValue> = Vec::new();
    append_semantic_tools(&mut out);
    proof {
        assert(Seq::<JsonModel>::empty() + spec_semantic_tool_definitions() =~= spec_semantic_tool_definitions());
    }
    out
}

fn append_semantic_tools(out: &mut Vec<JsonValue>)
    ensures
        models(final(out)@) == models(old(out)@) + spec_semantic_tool_definitions(),
{
    let ghost start = models(out@);
    let mut i: usize = 0;
    proof {
        assert(start + Seq::new(0, |j: int| semantic_tool_def(j)) =~= start);
    }
    while i < 3
        invariant
            0 <= i <= 3,
            models(out@) == start + Seq::new(i as nat, |j: int| semantic_tool_def(j)),
        decreases 3 - i,
    {
        let t = tool_value(semantic_tool_name_str(i), semantic_tool_description_str(i), semantic_tool_schema_value(i));
        let ghost before = out@;
        out.push(t);
        proof {
            lemma_models_push(before, t);
            assert(start + Seq::new((i + 1) as nat, |j: int| semantic_tool_def(j)) =~= (start + Seq::new(
                i as nat,
                |j: int| semantic_tool_def(j),
            )).push(semantic_tool_def(i as int)));
        }
        i = i + 1;
    }
}

/// What `tools/list` (and `initialize`) offer: the HaloPSA tools, followed
/// by the semantic tools when semantic search is enabled.
pub fn listed_tools(semantic_enabled: bool) -> (r: Vec<JsonValue>)
    ensures
        models(r@) == spec_listed_tools(semantic_enabled),
{
    let mut out = tool_definitions();
    if semantic_enabled {
        append_semantic_tools(&mut out);
    }
    out
}

proof fn lemma_tool_model_name(name: Seq<char>, description: Seq<char>, schema: JsonModel)
    ensures
        tool_name_of(tool_model(name, description, schema)) == Some(name),
{
    let es = Seq::empty().push(("name"@, JsonModel::Str(name))).push(
        ("description"@, JsonModel::Str(description)),
    ).push(("inputSchema"@, schema));
    assert(es[0] == ("name"@, JsonModel::Str(name)));
}

/// Every tool that `tools/list` offers is one that a call is routed to,
/// and every name that is routed (neither unknown nor a disabled semantic
/// tool) is offered.
pub proof fn lemma_listed_tools_are_routed(n: Seq<char>, semantic_enabled: bool)
    ensures
        (exists|i: int|
            0 <= i < spec_listed_tools(semantic_enabled).len()
                && #[trigger] tool_name_of(spec_listed_tools(semantic_enabled)[i]) == Some(n))
            <==> !(spec_tool_route(n, semantic_enabled) is Unknown)
                && !(spec_tool_route(n, semantic_enabled) is SemanticDisabled),
{
    let listed = spec_listed_tools(semantic_enabled);
    let halo = spec_tool_definitions();
    let sem = spec_semantic_tool_definitions();
    assert(halo.len() == HALO_TOOL_COUNT);
    assert forall|i: int| 0 <= i < listed.len() implies #[trigger] tool_name_of(listed[i]) == Some(
        if i < HALO_TOOL_COUNT { halo_tool_name(i) } else { semantic_tool_name(i - HALO_TOOL_COUNT) },
    ) by {
        if i < HALO_TOOL_COUNT {
            assert(listed[i] == halo_tool_def(i));
            lemma_tool_model_name(halo_tool_name(i), halo_tool_description(i), halo_tool_schema(i));
        } else {
            assert(semantic_enabled);
            assert(listed[i] == sem[i - HALO_TOOL_COUNT]);
            lemma_tool_model_name(
                semantic_tool_name(i - HALO_TOOL_COUNT),
                semantic_tool_description(i - HALO_TOOL_COUNT),
                semantic_tool_schema(i - HALO_TOOL_COUNT),
            );
        }
    }
    if exists|i: int| 0 <= i < listed.len() && #[trigger] tool_name_of(listed[i]) == Some(n) {
        let i = choose|i: int| 0 <= i < listed.len() && #[trigger] tool_name_of(listed[i]) == Some(n);
        if i < HALO_TOOL_COUNT {
            assert(halo_tool_name(i) == n);
            assert(is_halo_tool(n));
        } else {
            assert(semantic_tool_name(i - HALO_TOOL_COUNT) == n);
        }
    }
    if !(spec_tool_route(n, semantic_enabled) is Unknown) && !(spec_tool_route(n, semantic_enabled) is SemanticDisabled) {
        if is_halo_tool(n) {
            let j = choose|j: int| 0 <= j < HALO_TOOL_COUNT && #[trigger] halo_tool_name(j) == n;
            assert(tool_name_of(listed[j]) == Some(n));
        } else {
            assert(semantic_enabled);
            let k: int = if n == "semantic_search"@ { 0 } else if n == "embedding_status"@ { 1 } else { 2 };
            assert(semantic_tool_name(k) == n);
            assert(tool_name_of(listed[HALO_TOOL_COUNT + k]) == Some(n));
        }
    }
}

} // verus!
