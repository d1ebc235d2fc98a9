use vstd::prelude::*;
use crate::text::str_eq;

verus! {

// ---------------------------------------------------------------------------
// A JSON document as the tool layer reads and reshapes it
// ---------------------------------------------------------------------------

/// A JSON value. Integers that fit `i64` are `Int`, larger unsigned ones
/// `UInt`; any other number is kept by its text in `Float`, which nothing
/// here reads.
#[derive(Debug)]
pub enum JsonValue {
    Null,
    Bool(bool),
    Int(i64),
    UInt(u64),
    Float(String),
    Str(String),
    Array(Vec<JsonValue>),
    Object(Vec<JsonEntry>),
}

/// One `"key": value` member of an object.
#[derive(Debug)]
pub struct JsonEntry {
    pub key: String,
    pub value: JsonValue,
}

/// The mathematical model of a JSON value: strings as character
/// sequences, arrays and objects as sequences.
pub enum JsonModel {
    Null,
    Bool(bool),
    Int(i64),
    UInt(u64),
    Float(Seq<char>),
    Str(Seq<char>),
    Array(Seq<JsonModel>),
    Object(Seq<(Seq<char>, JsonModel)>),
}

pub open spec fn model(j: JsonValue) -> JsonModel
    decreases j,
{
    match j {
        JsonValue::Null => JsonModel::Null,
        JsonValue::Bool(b) => JsonModel::Bool(b),
        JsonValue::Int(i) => JsonModel::Int(i),
        JsonValue::UInt(u) => JsonModel::UInt(u),
        JsonValue::Float(s) => JsonModel::Float(s@),
        JsonValue::Str(s) => JsonModel::Str(s@),
        JsonValue::Array(items) => JsonModel::Array(models(items@)),
        JsonValue::Object(entries) => JsonModel::Object(entry_models(entries@)),
    }
}

pub open spec fn models(s: Seq<JsonValue>) -> Seq<JsonModel>
    decreases s,
{
    if s.len() == 0 {
        Seq::empty()
    } else {
        models(s.subrange(0, s.len() - 1)).push(model(s[s.len() - 1]))
    }
}

pub open spec fn entry_models(s: Seq<JsonEntry>) -> Seq<(Seq<char>, JsonModel)>
    decreases s,
{
    if s.len() == 0 {
        Seq::empty()
    } else {
        entry_models(s.subrange(0, s.len() - 1)).push(
            (s[s.len() - 1].key@, model(s[s.len() - 1].value)),
        )
    }
}

proof fn lemma_models_take(s: Seq<JsonValue>, i: int)
    requires
        0 <= i < s.len(),
    ensures
        models(s.take(i + 1)) == models(s.take(i)).push(model(s[i])),
{
    assert(s.take(i + 1).subrange(0, i) =~= s.take(i));
}

proof fn lemma_entry_models_take(s: Seq<JsonEntry>, i: int)
    requires
        0 <= i < s.len(),
    ensures
        entry_models(s.take(i + 1)) == entry_models(s.take(i)).push((s[i].key@, model(s[i].value))),
{
    assert(s.take(i + 1).subrange(0, i) =~= s.take(i));
}

/// A copy of `v` with the same model.
pub fn copy_json(v: &JsonValue) -> (r: JsonValue)
    ensures
        model(r) == model(*v),
    decreases v,
{
    match v {
        JsonValue::Null => JsonValue::Null,
        JsonValue::Bool(b) => JsonValue::Bool(*b),
        JsonValue::Int(i) => JsonValue::Int(*i),
        JsonValue::UInt(u) => JsonValue::UInt(*u),
        JsonValue::Float(s) => JsonValue::Float(s.clone()),
        JsonValue::Str(s) => JsonValue::Str(s.clone()),
        JsonValue::Array(items) => {
            let mut out: Vec<JsonValue> = Vec::new();
            let mut i: usize = 0;
            proof {
                assert(items@.take(0) =~= Seq::<JsonValue>::empty());
            }
            while i < items.len()
                invariant
                    0 <= i <= items@.len(),
                    *v == JsonValue::Array(*items),
                    models(out@) == models(items@.take(i as int)),
                decreases items@.len() - i,
            {
                proof {
                    lemma_models_take(items@, i as int);
                    let ghost vs = *items;
                    assert(decreases_to!(*v => (*v)->Array_0));
                    assert(decreases_to!(vs => vs@));
                    assert(decreases_to!(vs@ => vs@[i as int]));
                    assert(decreases_to!(*v => items@[i as int]));
                }
                let c = copy_json(&items[i]);
                let ghost before = out@;
                out.push(c);
                proof {
                    assert(out@.subrange(0, out@.len() - 1) =~= before);
                }
                i = i + 1;
            }
            proof {
                assert(items@.take(i as int) =~= items@);
            }
            JsonValue::Array(out)
        },
        JsonValue::Object(entries) => {
            let mut out: Vec<JsonEntry> = Vec::new();
            let mut i: usize = 0;
            proof {
                assert(entries@.take(0) =~= Seq::<JsonEntry>::empty());
            }
            while i < entries.len()
                invariant
                    0 <= i <= entries@.len(),
                    *v == JsonValue::Object(*entries),
                    entry_models(out@) == entry_models(entries@.take(i as int)),
                decreases entries@.len() - i,
            {
                proof {
                    lemma_entry_models_take(entries@, i as int);
                    let ghost es = *entries;
                    assert(decreases_to!(*v => (*v)->Object_0));
                    assert(decreases_to!(es => es@));
                    assert(decreases_to!(es@ => es@[i as int]));
                    assert(decreases_to!(es@[i as int] => es@[i as int].value));
                    assert(decreases_to!(*v => entries@[i as int].value));
                }
                let e = &entries[i];
                let c = copy_json(&e.value);
                let ghost before = out@;
                out.push(JsonEntry { key: e.key.clone(), value: c });
                proof {
                    assert(out@.subrange(0, out@.len() - 1) =~= before);
                }
                i = i + 1;
            }
            proof {
                assert(entries@.take(i as int) =~= entries@);
            }
            JsonValue::Object(out)
        },
    }
}

// ---------------------------------------------------------------------------
// Removing credentials that HaloPSA echoes back
// ---------------------------------------------------------------------------

/// Keys under which HaloPSA returns plaintext credentials (for instance the
/// password of a portal contact it provisioned on its own).
pub open spec fn is_sensitive_key(k: Seq<char>) -> bool {
    k == "new_password"@ || k == "password"@ || k == "passwordconfirm"@
}

/// `m` with every member under a sensitive key removed, at every depth.
pub open spec fn redact(m: JsonModel) -> JsonModel
    decreases m,
{
    match m {
        JsonModel::Array(items) => JsonModel::Array(redact_all(items)),
        JsonModel::Object(es) => JsonModel::Object(redact_entries(es)),
        _ => m,
    }
}

pub open spec fn redact_all(s: Seq<JsonModel>) -> Seq<JsonModel>
    decreases s,
{
    if s.len() == 0 {
        Seq::empty()
    } else {
        redact_all(s.subrange(0, s.len() - 1)).push(redact(s[s.len() - 1]))
    }
}

pub open spec fn redact_entries(s: Seq<(Seq<char>, JsonModel)>) -> Seq<(Seq<char>, JsonModel)>
    decreases s,
{
    if s.len() == 0 {
        Seq::empty()
    } else {
        let rest = redact_entries(s.subrange(0, s.len() - 1));
        let e = s[s.len() - 1];
        if is_sensitive_key(e.0) {
            rest
        } else {
            rest.push((e.0, redact(e.1)))
        }
    }
}

/// No object anywhere in `m` has a member under a sensitive key.
pub open spec fn secret_free(m: JsonModel) -> bool
    decreases m,
{
    match m {
        JsonModel::Array(items) => all_secret_free(items),
        JsonModel::Object(es) => entries_secret_free(es),
        _ => true,
    }
}

pub open spec fn all_secret_free(s: Seq<JsonModel>) -> bool
    decreases s,
{
    s.len() == 0 || (all_secret_free(s.subrange(0, s.len() - 1)) && secret_free(s[s.len() - 1]))
}

pub open spec fn entries_secret_free(s: Seq<(Seq<char>, JsonModel)>) -> bool
    decreases s,
{
    s.len() == 0 || {
        &&& entries_secret_free(s.subrange(0, s.len() - 1))
        &&& !is_sensitive_key(s[s.len() - 1].0)
        &&& secret_free(s[s.len() - 1].1)
    }
}

proof fn lemma_redact_all_push(s: Seq<JsonModel>, x: JsonModel)
    ensures
        redact_all(s.push(x)) == redact_all(s).push(redact(x)),
{
    assert(s.push(x).subrange(0, s.len() as int) =~= s);
}

proof fn lemma_redact_entries_push(s: Seq<(Seq<char>, JsonModel)>, e: (Seq<char>, JsonModel))
    ensures
        redact_entries(s.push(e)) == if is_sensitive_key(e.0) {
            redact_entries(s)
        } else {
            redact_entries(s).push((e.0, redact(e.1)))
        },
{
    assert(s.push(e).subrange(0, s.len() as int) =~= s);
}

/// Law: after redaction no object at any depth holds a member under a
/// sensitive key.
pub proof fn lemma_redact_is_secret_free(m: JsonModel)
    ensures
        secret_free(redact(m)),
    decreases m,
{
    match m {
        JsonModel::Array(items) => lemma_redact_all_secret_free(items),
        JsonModel::Object(es) => lemma_redact_entries_secret_free(es),
        _ => {},
    }
}

proof fn lemma_redact_all_secret_free(s: Seq<JsonModel>)
    ensures
        all_secret_free(redact_all(s)),
    decreases s,
{
    if s.len() > 0 {
        let init = s.subrange(0, s.len() - 1);
        lemma_redact_all_secret_free(init);
        lemma_redact_is_secret_free(s[s.len() - 1]);
        let r = redact_all(s);
        assert(r.subrange(0, r.len() - 1) =~= redact_all(init));
    }
}

proof fn lemma_redact_entries_secret_free(s: Seq<(Seq<char>, JsonModel)>)
    ensures
        entries_secret_free(redact_entries(s)),
    decreases s,
{
    if s.len() > 0 {
        let init = s.subrange(0, s.len() - 1);
        let e = s[s.len() - 1];
        lemma_redact_entries_secret_free(init);
        if !is_sensitive_key(e.0) {
            lemma_redact_is_secret_free(e.1);
            let r = redact_entries(s);
            assert(r.subrange(0, r.len() - 1) =~= redact_entries(init));
        }
    }
}

/// Law: a document that holds no credentials passes redaction unchanged;
/// in particular redacting twice is redacting once.
pub proof fn lemma_redact_keeps_clean(m: JsonModel)
    requires
        secret_free(m),
    ensures
        redact(m) == m,
    decreases m,
{
    match m {
        JsonModel::Array(items) => lemma_redact_all_keeps_clean(items),
        JsonModel::Object(es) => lemma_redact_entries_keeps_clean(es),
        _ => {},
    }
}

proof fn lemma_redact_all_keeps_clean(s: Seq<JsonModel>)
    requires
        all_secret_free(s),
    ensures
        redact_all(s) == s,
    decreases s,
{
    if s.len() > 0 {
        let init = s.subrange(0, s.len() - 1);
        lemma_redact_all_keeps_clean(init);
        lemma_redact_keeps_clean(s[s.len() - 1]);
        assert(init.push(s[s.len() - 1]) =~= s);
    }
}

proof fn lemma_redact_entries_keeps_clean(s: Seq<(Seq<char>, JsonModel)>)
    requires
        entries_secret_free(s),
    ensures
        redact_entries(s) == s,
    decreases s,
{
    if s.len() > 0 {
        let init = s.subrange(0, s.len() - 1);
        let e = s[s.len() - 1];
        lemma_redact_entries_keeps_clean(init);
        lemma_redact_keeps_clean(e.1);
        assert(init.push((e.0, e.1)) =~= s);
    }
}

/// Law: redaction is idempotent.
pub proof fn lemma_redact_idempotent(m: JsonModel)
    ensures
        redact(redact(m)) == redact(m),
{
    lemma_redact_is_secret_free(m);
    lemma_redact_keeps_clean(redact(m));
}

fn is_sensitive_key_exec(k: &String) -> (r: bool)
    ensures
        r == is_sensitive_key(k@),
{
    str_eq(k.as_str(), "new_password") || str_eq(k.as_str(), "password") || str_eq(
        k.as_str(),
        "passwordconfirm",
    )
}

/// A copy of `v` with every member under a sensitive key removed, at every
/// depth.
pub fn redacted(v: &JsonValue) -> (r: JsonValue)
    ensures
        model(r) == redact(model(*v)),
    decreases v,
{
    match v {
        JsonValue::Array(items) => {
            let mut out: Vec<JsonValue> = Vec::new();
            let mut i: usize = 0;
            proof {
                assert(items@.take(0) =~= Seq::<JsonValue>::empty());
            }
            while i < items.len()
                invariant
                    0 <= i <= items@.len(),
                    *v == JsonValue::Array(*items),
                    models(out@) == redact_all(models(items@.take(i as int))),
                decreases items@.len() - i,
            {
                proof {
                    lemma_models_take(items@, i as int);
                    lemma_redact_all_push(models(items@.take(i as int)), model(items@[i as int]));
                    let ghost vs = *items;
                    assert(decreases_to!(*v => (*v)->Array_0));
                    assert(decreases_to!(vs => vs@));
                    assert(decreases_to!(vs@ => vs@[i as int]));
                }
                let c = redacted(&items[i]);
                let ghost before = out@;
                out.push(c);
                proof {
                    assert(out@.subrange(0, out@.len() - 1) =~= before);
                }
                i = i + 1;
            }
            proof {
                assert(items@.take(i as int) =~= items@);
            }
            JsonValue::Array(out)
        },
        JsonValue::Object(entries) => {
            let mut out: Vec<JsonEntry> = Vec::new();
            let mut i: usize = 0;
            proof {
                assert(entries@.take(0) =~= Seq::<JsonEntry>::empty());
            }
            while i < entries.len()
                invariant
                    0 <= i <= entries@.len(),
                    *v == JsonValue::Object(*entries),
                    entry_models(out@) == redact_entries(entry_models(entries@.take(i as int))),
                decreases entries@.len() - i,
            {
                let e = &entries[i];
                proof {
                    lemma_entry_models_take(entries@, i as int);
                    lemma_redact_entries_push(
                        entry_models(entries@.take(i as int)),
                        (e.key@, model(e.value)),
                    );
                    let ghost es = *entries;
                    assert(decreases_to!(*v => (*v)->Object_0));
                    assert(decreases_to!(es => es@));
                    assert(decreases_to!(es@ => es@[i as int]));
                    assert(decreases_to!(es@[i as int] => es@[i as int].value));
                }
                if !is_sensitive_key_exec(&e.key) {
                    let c = redacted(&e.value);
                    let ghost before = out@;
                    out.push(JsonEntry { key: e.key.clone(), value: c });
                    proof {
                        assert(out@.subrange(0, out@.len() - 1) =~= before);
                    }
                }
                i = i + 1;
            }
            proof {
                assert(entries@.take(i as int) =~= entries@);
            }
            JsonValue::Object(out)
        },
        _ => copy_json(v),
    }
}

/// Strips credentials HaloPSA embeds in client/site/user/supplier objects
/// before they reach the model: removes, at every depth, each member named
/// `new_password`, `password` or `passwordconfirm`.
pub fn redact_secrets(value: &mut JsonValue)
    ensures
        model(*final(value)) == redact(model(*old(value))),
{
    let r = redacted(value);
    *value = r;
}

// ---------------------------------------------------------------------------
// Reading members and arguments
// ---------------------------------------------------------------------------

/// The model of a list of values is the list of their models.
pub proof fn lemma_models_index(s: Seq<JsonValue>)
    ensures
        models(s).len() == s.len(),
        forall|i: int| 0 <= i < s.len() ==> #[trigger] models(s)[i] == model(s[i]),
    decreases s.len(),
{
    if s.len() > 0 {
        lemma_models_index(s.subrange(0, s.len() - 1));
    }
}

proof fn lemma_entry_models_index(s: Seq<JsonEntry>)
    ensures
        entry_models(s).len() == s.len(),
        forall|i: int|
            0 <= i < s.len() ==> #[trigger] entry_models(s)[i] == (s[i].key@, model(s[i].value)),
    decreases s.len(),
{
    if s.len() > 0 {
        lemma_entry_models_index(s.subrange(0, s.len() - 1));
    }
}

/// The value of the first member named `k`.
pub open spec fn lookup(es: Seq<(Seq<char>, JsonModel)>, k: Seq<char>) -> Option<JsonModel>
    decreases es.len(),
{
    if es.len() == 0 {
        None
    } else if es[0].0 == k {
        Some(es[0].1)
    } else {
        lookup(es.drop_first(), k)
    }
}

/// `value.get(k)`: the member `k` of an object, nothing for any other value.
pub open spec fn spec_get(m: JsonModel, k: Seq<char>) -> Option<JsonModel> {
    match m {
        JsonModel::Object(es) => lookup(es, k),
        _ => None,
    }
}

proof fn lemma_lookup_first(es: Seq<(Seq<char>, JsonModel)>, k: Seq<char>, i: int)
    requires
        0 <= i <= es.len(),
        forall|j: int| 0 <= j < i ==> es[j].0 != k,
    ensures
        i < es.len() && es[i].0 == k ==> lookup(es, k) == Some(es[i].1),
        i == es.len() ==> lookup(es, k) is None,
    decreases i,
{
    if i > 0 {
        let t = es.drop_first();
        assert forall|j: int| 0 <= j < i - 1 implies t[j].0 != k by {
            assert(t[j] == es[j + 1]);
        }
        lemma_lookup_first(t, k, i - 1);
    }
}

/// `value.get(key)`.
pub fn get<'a>(v: &'a JsonValue, key: &str) -> (r: Option<&'a JsonValue>)
    ensures
        match r {
            Some(x) => spec_get(model(*v), key@) == Some(model(*x)),
            None => spec_get(model(*v), key@) is None,
        },
{
    match v {
        JsonValue::Object(entries) => {
            proof {
                lemma_entry_models_index(entries@);
            }
            let ghost ms = entry_models(entries@);
            let mut i: usize = 0;
            while i < entries.len()
                invariant
                    0 <= i <= entries@.len(),
                    *v == JsonValue::Object(*entries),
                    ms == entry_models(entries@),
                    ms.len() == entries@.len(),
                    forall|j: int| 0 <= j < entries@.len() ==> #[trigger] ms[j] == (entries@[j].key@, model(entries@[j].value)),
                    forall|j: int| 0 <= j < i ==> ms[j].0 != key@,
                decreases entries@.len() - i,
            {
                if str_eq(entries[i].key.as_str(), key) {
                    proof {
                        lemma_lookup_first(ms, key@, i as int);
                    }
                    return Some(&entries[i].value);
                }
                i = i + 1;
            }
            proof {
                lemma_lookup_first(ms, key@, i as int);
            }
            None
        },
        _ => None,
    }
}

/// `value.as_i64()`: an integer that fits `i64`.
pub open spec fn spec_as_i64(m: JsonModel) -> Option<i64> {
    match m {
        JsonModel::Int(i) => Some(i),
        JsonModel::UInt(u) => if u <= i64::MAX {
            Some(u as i64)
        } else {
            None
        },
        _ => None,
    }
}

/// `value.as_i64()`.
pub fn as_i64(v: &JsonValue) -> (r: Option<i64>)
    ensures
        r == spec_as_i64(model(*v)),
{
    match v {
        JsonValue::Int(i) => Some(*i),
        JsonValue::UInt(u) => if *u <= 9223372036854775807u64 {
            Some(*u as i64)
        } else {
            None
        },
        _ => None,
    }
}

/// `args.get(key).and_then(as_i64)`: an integer argument.
pub open spec fn spec_arg_i64(args: JsonModel, key: Seq<char>) -> Option<i64> {
    match spec_get(args, key) {
        Some(x) => spec_as_i64(x),
        None => None,
    }
}

/// `args.get(key).and_then(as_str)`: a string argument.
pub open spec fn spec_arg_str(args: JsonModel, key: Seq<char>) -> Option<Seq<char>> {
    match spec_get(args, key) {
        Some(JsonModel::Str(s)) => Some(s),
        _ => None,
    }
}

/// `args.get(key).and_then(as_bool)`: a boolean argument.
pub open spec fn spec_arg_bool(args: JsonModel, key: Seq<char>) -> Option<bool> {
    match spec_get(args, key) {
        Some(JsonModel::Bool(b)) => Some(b),
        _ => None,
    }
}

/// An integer argument of a tool call.
pub fn arg_i64(args: &JsonValue, key: &str) -> (r: Option<i64>)
    ensures
        r == spec_arg_i64(model(*args), key@),
{
    match get(args, key) {
        Some(x) => as_i64(x),
        None => None,
    }
}

/// A string argument of a tool call.
pub fn arg_str(args: &JsonValue, key: &str) -> (r: Option<String>)
    ensures
        match r {
            Some(s) => spec_arg_str(model(*args), key@) == Some(s@),
            None => spec_arg_str(model(*args), key@) is None,
        },
{
    match get(args, key) {
        Some(JsonValue::Str(s)) => Some(s.clone()),
        _ => None,
    }
}

/// A boolean argument of a tool call.
pub fn arg_bool(args: &JsonValue, key: &str) -> (r: Option<bool>)
    ensures
        r == spec_arg_bool(model(*args), key@),
{
    match get(args, key) {
        Some(JsonValue::Bool(b)) => Some(*b),
        _ => None,
    }
}

// ---------------------------------------------------------------------------
// Reshaping HaloPSA responses
// ---------------------------------------------------------------------------

/// A copy of each value of `items`, in order.
pub fn copy_items(items: &Vec<JsonValue>) -> (r: Vec<JsonValue>)
    ensures
        models(r@) == models(items@),
{
    let mut out: Vec<JsonValue> = Vec::new();
    let mut i: usize = 0;
    proof {
        assert(items@.take(0) =~= Seq::<JsonValue>::empty());
    }
    while i < items.len()
        invariant
            0 <= i <= items@.len(),
            models(out@) == models(items@.take(i as int)),
        decreases items@.len() - i,
    {
        proof {
            lemma_models_take(items@, i as int);
        }
        let c = copy_json(&items[i]);
        let ghost before = out@;
        out.push(c);
        proof {
            assert(out@.subrange(0, out@.len() - 1) =~= before);
        }
        i = i + 1;
    }
    proof {
        assert(items@.take(i as int) =~= items@);
    }
    out
}

/// The members of `es` not named `k`, in order.
pub open spec fn without_key(es: Seq<(Seq<char>, JsonModel)>, k: Seq<char>) -> Seq<(Seq<char>, JsonModel)>
    decreases es.len(),
{
    if es.len() == 0 {
        Seq::empty()
    } else {
        let rest = without_key(es.subrange(0, es.len() - 1), k);
        let e = es[es.len() - 1];
        if e.0 == k {
            rest
        } else {
            rest.push(e)
        }
    }
}

proof fn lemma_without_key_push(es: Seq<(Seq<char>, JsonModel)>, k: Seq<char>, e: (Seq<char>, JsonModel))
    ensures
        without_key(es.push(e), k) == if e.0 == k {
            without_key(es, k)
        } else {
            without_key(es, k).push(e)
        },
{
    assert(es.push(e).subrange(0, es.len() as int) =~= es);
}

/// `value` without its members named `k` when it is an object; any other
/// value as is.
pub open spec fn spec_remove_member(m: JsonModel, k: Seq<char>) -> JsonModel {
    match m {
        JsonModel::Object(es) => JsonModel::Object(without_key(es, k)),
        _ => m,
    }
}

/// `value.as_object_mut().map(|o| o.remove(key))`: drops the member `key`
/// of an object.
pub fn remove_member(value: &mut JsonValue, key: &str)
    ensures
        model(*final(value)) == spec_remove_member(model(*old(value)), key@),
{
    let stripped = match &*value {
        JsonValue::Object(entries) => {
            let mut out: Vec<JsonEntry> = Vec::new();
            let mut i: usize = 0;
            proof {
                assert(entries@.take(0) =~= Seq::<JsonEntry>::empty());
            }
            while i < entries.len()
                invariant
                    0 <= i <= entries@.len(),
                    entry_models(out@) == without_key(entry_models(entries@.take(i as int)), key@),
                decreases entries@.len() - i,
            {
                let e = &entries[i];
                proof {
                    lemma_entry_models_take(entries@, i as int);
                    lemma_without_key_push(
                        entry_models(entries@.take(i as int)),
                        key@,
                        (e.key@, model(e.value)),
                    );
                }
                if !str_eq(e.key.as_str(), key) {
                    let c = copy_json(&e.value);
                    let ghost before = out@;
                    out.push(JsonEntry { key: e.key.clone(), value: c });
                    proof {
                        assert(out@.subrange(0, out@.len() - 1) =~= before);
                    }
                }
                i = i + 1;
            }
            proof {
                assert(entries@.take(i as int) =~= entries@);
            }
            Some(JsonValue::Object(out))
        },
        _ => None,
    };
    match stripped {
        Some(s) => {
            *value = s;
        },
        None => {},
    }
}

/// A ticket without its `extra_actions` member (the workflow-action field
/// schema HaloPSA embeds with `includedetails=true`); any other value as is.
pub open spec fn spec_strip_ticket_bloat(m: JsonModel) -> JsonModel {
    spec_remove_member(m, "extra_actions"@)
}

/// Drops the `extra_actions` member of a ticket object.
pub fn strip_ticket_bloat(value: &mut JsonValue)
    ensures
        model(*final(value)) == spec_strip_ticket_bloat(model(*old(value))),
{
    remove_member(value, "extra_actions");
}

/// Drops the `fields` member of an asset object (the field schema of its
/// asset type).
pub fn strip_asset_bloat(value: &mut JsonValue)
    ensures
        model(*final(value)) == spec_remove_member(model(*old(value)), "fields"@),
{
    remove_member(value, "fields");
}

/// The first array-valued member of an object, in member order.
pub open spec fn first_array(es: Seq<(Seq<char>, JsonModel)>) -> Option<Seq<JsonModel>>
    decreases es.len(),
{
    if es.len() == 0 {
        None
    } else {
        match es[0].1 {
            JsonModel::Array(items) => Some(items),
            _ => first_array(es.drop_first()),
        }
    }
}

proof fn lemma_first_array(es: Seq<(Seq<char>, JsonModel)>, i: int)
    requires
        0 <= i <= es.len(),
        forall|j: int| 0 <= j < i ==> !(es[j].1 is Array),
    ensures
        i < es.len() && es[i].1 is Array ==> first_array(es) == Some(es[i].1->Array_0),
        i == es.len() ==> first_array(es) is None,
    decreases i,
{
    if i > 0 {
        let t = es.drop_first();
        assert forall|j: int| 0 <= j < i - 1 implies !(t[j].1 is Array) by {
            assert(t[j] == es[j + 1]);
        }
        lemma_first_array(t, i - 1);
    }
}

/// The records of a HaloPSA list response: the response itself when it is
/// an array, else the first array-valued member of the response object
/// (its key names the resource: `tickets`, `actions`, ...), else none.
pub open spec fn spec_halo_list(m: JsonModel) -> Seq<JsonModel> {
    match m {
        JsonModel::Array(items) => items,
        JsonModel::Object(es) => match first_array(es) {
            Some(items) => items,
            None => Seq::empty(),
        },
        _ => Seq::empty(),
    }
}

/// The records of a HaloPSA list response, before each is decoded.
pub fn parse_halo_list(value: &JsonValue) -> (r: Vec<JsonValue>)
    ensures
        models(r@) == spec_halo_list(model(*value)),
{
    match value {
        JsonValue::Array(items) => copy_items(items),
        JsonValue::Object(entries) => {
            proof {
                lemma_entry_models_index(entries@);
            }
            let ghost ms = entry_models(entries@);
            let mut i: usize = 0;
            while i < entries.len()
                invariant
                    0 <= i <= entries@.len(),
                    *value == JsonValue::Object(*entries),
                    ms == entry_models(entries@),
                    ms.len() == entries@.len(),
                    forall|j: int| 0 <= j < entries@.len() ==> #[trigger] ms[j] == (entries@[j].key@, model(entries@[j].value)),
                    forall|j: int| 0 <= j < i ==> !(ms[j].1 is Array),
                decreases entries@.len() - i,
            {
                match &entries[i].value {
                    JsonValue::Array(items) => {
                        proof {
                            lemma_first_array(ms, i as int);
                        }
                        return copy_items(items);
                    },
                    _ => {},
                }
                i = i + 1;
            }
            proof {
                lemma_first_array(ms, i as int);
                assert(models(Seq::<JsonValue>::empty()) =~= Seq::<JsonModel>::empty());
            }
            Vec::new()
        },
        _ => {
            proof {
                assert(models(Seq::<JsonValue>::empty()) =~= Seq::<JsonModel>::empty());
            }
            Vec::new()
        },
    }
}

/// `value.get(k)`, a JSON `null` where there is none.
pub open spec fn or_null(o: Option<JsonModel>) -> JsonModel {
    match o {
        Some(x) => x,
        None => JsonModel::Null,
    }
}

pub open spec fn summary_field(m: JsonModel, k: Seq<char>) -> (Seq<char>, JsonModel) {
    (k, or_null(spec_get(m, k)))
}

/// The listing form of a ticket: its id, summary, client, agent, team,
/// status, priority and date, each `null` where the ticket has none.
pub open spec fn spec_summarize(m: JsonModel) -> JsonModel {
    JsonModel::Object(
        seq![
            summary_field(m, "id"@),
            summary_field(m, "summary"@),
            summary_field(m, "client_name"@),
            summary_field(m, "agent_name"@),
            summary_field(m, "team"@),
            summary_field(m, "status"@),
            summary_field(m, "priority"@),
            summary_field(m, "dateoccurred"@),
        ],
    )
}

fn push_summary_field(out: &mut Vec<JsonEntry>, t: &JsonValue, key: &str)
    ensures
        entry_models(final(out)@) == entry_models(old(out)@).push(summary_field(model(*t), key@)),
{
    let v = match get(t, key) {
        Some(x) => copy_json(x),
        None => JsonValue::Null,
    };
    assert(model(v) == or_null(spec_get(model(*t), key@)));
    let e = JsonEntry { key: key.to_owned(), value: v };
    let ghost before = out@;
    out.push(e);
    proof {
        assert(out@.subrange(0, out@.len() - 1) =~= before);
        assert(out@[out@.len() - 1] == e);
    }
}

/// The listing form of one ticket.
pub fn summarize_ticket(t: &JsonValue) -> (r: JsonValue)
    ensures
        model(r) == spec_summarize(model(*t)),
{
    let mut out: Vec<JsonEntry> = Vec::new();
    push_summary_field(&mut out, t, "id");
    push_summary_field(&mut out, t, "summary");
    push_summary_field(&mut out, t, "client_name");
    push_summary_field(&mut out, t, "agent_name");
    push_summary_field(&mut out, t, "team");
    push_summary_field(&mut out, t, "status");
    push_summary_field(&mut out, t, "priority");
    push_summary_field(&mut out, t, "dateoccurred");
    proof {
        let m = model(*t);
        assert(entry_models(out@) =~= seq![
            summary_field(m, "id"@),
            summary_field(m, "summary"@),
            summary_field(m, "client_name"@),
            summary_field(m, "agent_name"@),
            summary_field(m, "team"@),
            summary_field(m, "status"@),
            summary_field(m, "priority"@),
            summary_field(m, "dateoccurred"@),
        ]);
    }
    JsonValue::Object(out)
}

/// The listing form of each ticket, in order.
pub fn summarize_tickets(tickets: &[JsonValue]) -> (r: Vec<JsonValue>)
    ensures
        r@.len() == tickets@.len(),
        forall|i: int| 0 <= i < r@.len() ==> model(#[trigger] r@[i]) == spec_summarize(model(tickets@[i])),
{
    let mut out: Vec<JsonValue> = Vec::new();
    let mut i: usize = 0;
    while i < tickets.len()
        invariant
            0 <= i <= tickets@.len(),
            out@.len() == i,
            forall|j: int| 0 <= j < i ==> model(#[trigger] out@[j]) == spec_summarize(model(tickets@[j])),
        decreases tickets@.len() - i,
    {
        let s = summarize_ticket(&tickets[i]);
        out.push(s);
        i = i + 1;
    }
    out
}

// ---------------------------------------------------------------------------
// Merging the per-priority ticket pages
// ---------------------------------------------------------------------------

/// A ticket's `id`, where it is an integer.
pub open spec fn ticket_id(m: JsonModel) -> Option<i64> {
    match spec_get(m, "id"@) {
        Some(x) => spec_as_i64(x),
        None => None,
    }
}

pub open spec fn has_id(acc: Seq<JsonModel>, id: i64) -> bool {
    exists|j: int| 0 <= j < acc.len() && ticket_id(acc[j]) == Some(id)
}

/// The tickets of `s` in order, keeping only the first ticket of each id
/// and dropping tickets without an integer id.
pub open spec fn dedupe_by_id(s: Seq<JsonModel>) -> Seq<JsonModel>
    decreases s.len(),
{
    if s.len() == 0 {
        Seq::empty()
    } else {
        let rest = dedupe_by_id(s.subrange(0, s.len() - 1));
        let x = s[s.len() - 1];
        match ticket_id(x) {
            Some(id) => if has_id(rest, id) {
                rest
            } else {
                rest.push(x)
            },
            None => rest,
        }
    }
}

/// At most `max(page_size, 1)` tickets.
pub open spec fn page_cap(page_size: i64) -> int {
    if page_size < 1 {
        1
    } else {
        page_size as int
    }
}

/// The merged listing: duplicates by id removed, then cut to the page size.
pub open spec fn spec_merge_by_id(s: Seq<JsonModel>, page_size: i64) -> Seq<JsonModel> {
    let d = dedupe_by_id(s);
    if d.len() <= page_cap(page_size) {
        d
    } else {
        d.take(page_cap(page_size))
    }
}

proof fn lemma_dedupe_push(s: Seq<JsonModel>, x: JsonModel)
    ensures
        dedupe_by_id(s.push(x)) == match ticket_id(x) {
            Some(id) => if has_id(dedupe_by_id(s), id) {
                dedupe_by_id(s)
            } else {
                dedupe_by_id(s).push(x)
            },
            None => dedupe_by_id(s),
        },
{
    assert(s.push(x).subrange(0, s.len() as int) =~= s);
}

fn contains_id(seen: &Vec<i64>, id: i64) -> (r: bool)
    ensures
        r == seen@.contains(id),
{
    let mut i: usize = 0;
    while i < seen.len()
        invariant
            0 <= i <= seen@.len(),
            forall|j: int| 0 <= j < i ==> seen@[j] != id,
        decreases seen@.len() - i,
    {
        if seen[i] == id {
            return true;
        }
        i = i + 1;
    }
    false
}

/// Merges the pages fetched for each priority label (concatenated in the
/// order fetched): keeps the first ticket of each integer id, drops tickets
/// without one, and returns at most `max(page_size, 1)` of them.
pub fn merge_unique_by_id(tickets: &Vec<JsonValue>, page_size: i64) -> (r: Vec<JsonValue>)
    ensures
        models(r@) == spec_merge_by_id(models(tickets@), page_size),
{
    proof {
        lemma_models_index(tickets@);
    }
    let ghost ms = models(tickets@);
    let mut out: Vec<JsonValue> = Vec::new();
    let mut seen: Vec<i64> = Vec::new();
    let mut i: usize = 0;
    proof {
        assert(ms.take(0) =~= Seq::<JsonModel>::empty());
    }
    while i < tickets.len()
        invariant
            0 <= i <= tickets@.len(),
            ms == models(tickets@),
            ms.len() == tickets@.len(),
            forall|j: int| 0 <= j < tickets@.len() ==> #[trigger] ms[j] == model(tickets@[j]),
            models(out@) == dedupe_by_id(ms.take(i as int)),
            seen@.len() == models(out@).len(),
            forall|j: int|
                0 <= j < seen@.len() ==> ticket_id(#[trigger] models(out@)[j]) == Some(seen@[j]),
        decreases tickets@.len() - i,
    {
        let t = &tickets[i];
        proof {
            assert(ms.take(i + 1) =~= ms.take(i as int).push(ms[i as int]));
            lemma_dedupe_push(ms.take(i as int), ms[i as int]);
            lemma_models_index(out@);
        }
        let id_opt = match get(t, "id") {
            Some(x) => as_i64(x),
            None => None,
        };
        match id_opt {
            Some(id) => {
                let dup = contains_id(&seen, id);
                let ghost d = models(out@);
                proof {
                    if dup {
                        let j = choose|j: int| 0 <= j < seen@.len() && seen@[j] == id;
                        assert(ticket_id(d[j]) == Some(id));
                    } else {
                        assert forall|j: int| 0 <= j < d.len() implies ticket_id(d[j]) != Some(id) by {
                            assert(ticket_id(d[j]) == Some(seen@[j]));
                        }
                    }
                }
                if !dup {
                    let c = copy_json(t);
                    let ghost before = out@;
                    out.push(c);
                    seen.push(id);
                    proof {
                        assert(out@.subrange(0, out@.len() - 1) =~= before);
                        lemma_models_index(out@);
                        lemma_models_index(before);
                        assert forall|j: int| 0 <= j < seen@.len() implies ticket_id(
                            #[trigger] models(out@)[j],
                        ) == Some(seen@[j]) by {
                            if j < before.len() {
                                assert(models(out@)[j] == model(before[j]));
                                assert(models(before)[j] == model(before[j]));
                            }
                        }
                    }
                }
            },
            None => {},
        }
        i = i + 1;
    }
    proof {
        assert(ms.take(i as int) =~= ms);
    }
    let cap: i64 = if page_size < 1 {
        1
    } else {
        page_size
    };
    assert(models(out@) == dedupe_by_id(models(tickets@)));
    assert(cap as int == page_cap(page_size));
    proof {
        lemma_models_index(out@);
    }
    if (cap as u64) < (out.len() as u64) {
        let ghost before = out@;
        out.truncate(cap as usize);
        proof {
            lemma_models_index(before);
            lemma_models_index(out@);
            assert(models(out@) =~= models(before).take(cap as int));
        }
    }
    out
}

proof fn lemma_dedupe_ids(s: Seq<JsonModel>)
    ensures
        forall|i: int| 0 <= i < dedupe_by_id(s).len() ==> (#[trigger] ticket_id(dedupe_by_id(s)[i])) is Some,
        forall|i: int, j: int|
            0 <= i < j < dedupe_by_id(s).len() ==> ticket_id(#[trigger] dedupe_by_id(s)[i])
                != ticket_id(#[trigger] dedupe_by_id(s)[j]),
        forall|x: JsonModel|
            #[trigger] s.contains(x) && ticket_id(x) is Some ==> has_id(
                dedupe_by_id(s),
                ticket_id(x)->0,
            ),
    decreases s.len(),
{
    if s.len() > 0 {
        let init = s.subrange(0, s.len() - 1);
        lemma_dedupe_ids(init);
        let rest = dedupe_by_id(init);
        let x = s[s.len() - 1];
        assert forall|y: JsonModel|
            #[trigger] s.contains(y) && ticket_id(y) is Some implies has_id(
                dedupe_by_id(s),
                ticket_id(y)->0,
            ) by {
            let id = ticket_id(y)->0;
            let k = choose|k: int| 0 <= k < s.len() && s[k] == y;
            if k < s.len() - 1 {
                assert(init[k] == y);
                assert(init.contains(y));
                let j = choose|j: int| 0 <= j < rest.len() && ticket_id(rest[j]) == Some(id);
                assert(dedupe_by_id(s)[j] == rest[j]);
            } else {
                if !has_id(rest, id) {
                    assert(dedupe_by_id(s)[rest.len() as int] == x);
                } else {
                    let j = choose|j: int| 0 <= j < rest.len() && ticket_id(rest[j]) == Some(id);
                    assert(dedupe_by_id(s)[j] == rest[j]);
                }
            }
        }
    }
}

/// Law: the merged listing holds only tickets with an integer id, no id
/// twice, and at most `max(page_size, 1)` tickets; every id found on the
/// fetched pages is listed unless the page size cut it off.
pub proof fn lemma_merge_by_id(s: Seq<JsonModel>, page_size: i64)
    ensures
        spec_merge_by_id(s, page_size).len() <= page_cap(page_size),
        forall|i: int|
            0 <= i < spec_merge_by_id(s, page_size).len() ==> (#[trigger] ticket_id(
                spec_merge_by_id(s, page_size)[i],
            )) is Some,
        forall|i: int, j: int|
            0 <= i < j < spec_merge_by_id(s, page_size).len() ==> ticket_id(
                #[trigger] spec_merge_by_id(s, page_size)[i],
            ) != ticket_id(#[trigger] spec_merge_by_id(s, page_size)[j]),
        dedupe_by_id(s).len() <= page_cap(page_size) ==> forall|x: JsonModel|
            #[trigger] s.contains(x) && ticket_id(x) is Some ==> has_id(
                spec_merge_by_id(s, page_size),
                ticket_id(x)->0,
            ),
{
    lemma_dedupe_ids(s);
    let d = dedupe_by_id(s);
    let r = spec_merge_by_id(s, page_size);
    assert forall|i: int| 0 <= i < r.len() implies r[i] == d[i] by {}
    assert forall|i: int| 0 <= i < r.len() implies (#[trigger] ticket_id(r[i])) is Some by {
        assert(r[i] == d[i]);
    }
    assert forall|i: int, j: int| 0 <= i < j < r.len() implies ticket_id(#[trigger] r[i]) != ticket_id(
        #[trigger] r[j],
    ) by {
        assert(r[i] == d[i]);
        assert(r[j] == d[j]);
    }
}

/// The string items of a JSON array, in order.
pub open spec fn str_items(s: Seq<JsonModel>) -> Seq<Seq<char>>
    decreases s.len(),
{
    if s.len() == 0 {
        Seq::empty()
    } else {
        let rest = str_items(s.subrange(0, s.len() - 1));
        match s[s.len() - 1] {
            JsonModel::Str(t) => rest.push(t),
            _ => rest,
        }
    }
}

/// The priority labels asked for: the strings of the `priority_labels`
/// array, or High, Critical and RFO where the argument is not an array.
pub open spec fn spec_priority_labels(args: JsonModel) -> Seq<Seq<char>> {
    match spec_get(args, "priority_labels"@) {
        Some(JsonModel::Array(items)) => str_items(items),
        _ => seq!["High"@, "Critical"@, "RFO"@],
    }
}

pub open spec fn string_views(v: Seq<String>) -> Seq<Seq<char>> {
    v.map_values(|x: String| x@)
}

/// The priority labels of a `list_high_priority_tickets` call.
pub fn priority_labels(args: &JsonValue) -> (r: Vec<String>)
    ensures
        string_views(r@) == spec_priority_labels(model(*args)),
{
    match get(args, "priority_labels") {
        Some(JsonValue::Array(items)) => {
            let mut out: Vec<String> = Vec::new();
            let mut i: usize = 0;
            proof {
                lemma_models_index(items@);
                assert(models(items@).take(0) =~= Seq::<JsonModel>::empty());
                assert(string_views(out@) =~= Seq::<Seq<char>>::empty());
            }
            while i < items.len()
                invariant
                    0 <= i <= items@.len(),
                    models(items@).len() == items@.len(),
                    forall|j: int| 0 <= j < items@.len() ==> #[trigger] models(items@)[j] == model(items@[j]),
                    string_views(out@) == str_items(models(items@).take(i as int)),
                decreases items@.len() - i,
            {
                let ghost ms = models(items@);
                proof {
                    assert(ms.take(i + 1).subrange(0, i as int) =~= ms.take(i as int));
                }
                match &items[i] {
                    JsonValue::Str(t) => {
                        out.push(t.clone());
                        proof {
                            assert(string_views(out@) =~= str_items(ms.take(i as int)).push(t@));
                        }
                    },
                    _ => {},
                }
                i = i + 1;
            }
            proof {
                assert(models(items@).take(i as int) =~= models(items@));
            }
            out
        },
        _ => {
            let v = vec!["High".to_owned(), "Critical".to_owned(), "RFO".to_owned()];
            proof {
                assert(string_views(v@) =~= seq!["High"@, "Critical"@, "RFO"@]);
            }
            v
        },
    }
}

/// `value.as_u64()`: a non-negative integer.
pub open spec fn spec_as_u64(m: JsonModel) -> Option<u64> {
    match m {
        JsonModel::Int(i) => if i >= 0 {
            Some(i as u64)
        } else {
            None
        },
        JsonModel::UInt(u) => Some(u),
        _ => None,
    }
}

/// `value.as_u64()`.
pub fn as_u64(v: &JsonValue) -> (r: Option<u64>)
    ensures
        r == spec_as_u64(model(*v)),
{
    match v {
        JsonValue::Int(i) => if *i >= 0 {
            Some(*i as u64)
        } else {
            None
        },
        JsonValue::UInt(u) => Some(*u),
        _ => None,
    }
}

// ---------------------------------------------------------------------------
// Listing forms built from named members
// ---------------------------------------------------------------------------

pub open spec fn str_views(keys: Seq<&str>) -> Seq<Seq<char>> {
    keys.map_values(|k: &str| k@)
}

/// The object holding, for each of `keys` in order, that member of `m`
/// (`null` where `m` has none).
pub open spec fn spec_pick(m: JsonModel, keys: Seq<Seq<char>>) -> JsonModel {
    JsonModel::Object(keys.map_values(|k: Seq<char>| summary_field(m, k)))
}

/// `json!({k1: v.get(k1), k2: v.get(k2), ...})`.
pub fn pick_fields(v: &JsonValue, keys: &[&str]) -> (r: JsonValue)
    ensures
        model(r) == spec_pick(model(*v), str_views(keys@)),
{
    let mut out: Vec<JsonEntry> = Vec::new();
    let mut i: usize = 0;
    let ghost ks = str_views(keys@);
    let ghost m = model(*v);
    proof {
        assert(entry_models(out@) =~= ks.take(0).map_values(|k: Seq<char>| summary_field(m, k)));
    }
    while i < keys.len()
        invariant
            0 <= i <= keys@.len(),
            ks == str_views(keys@),
            m == model(*v),
            entry_models(out@) == ks.take(i as int).map_values(|k: Seq<char>| summary_field(m, k)),
        decreases keys@.len() - i,
    {
        let key = keys[i];
        let val = match get(v, key) {
            Some(x) => copy_json(x),
            None => JsonValue::Null,
        };
        assert(model(val) == or_null(spec_get(m, key@)));
        let e = JsonEntry { key: key.to_owned(), value: val };
        let ghost before = out@;
        out.push(e);
        proof {
            assert(out@.subrange(0, out@.len() - 1) =~= before);
            assert(out@[out@.len() - 1] == e);
            assert(entry_models(out@) == entry_models(before).push((e.key@, model(e.value))));
            assert(ks[i as int] == key@);
            assert(ks.take(i + 1).map_values(|k: Seq<char>| summary_field(m, k)) =~= ks.take(
                i as int,
            ).map_values(|k: Seq<char>| summary_field(m, k)).push(summary_field(m, key@)));
        }
        i = i + 1;
    }
    proof {
        assert(ks.take(i as int) =~= ks);
    }
    JsonValue::Object(out)
}

/// The listing form of an asset.
pub fn summarize_asset(a: &JsonValue) -> (r: JsonValue)
    ensures
        model(r) == spec_pick(
            model(*a),
            seq![
                "id"@,
                "inventory_number"@,
                "asset_tag"@,
                "devicename"@,
                "assettype_name"@,
                "client_name"@,
            ],
        ),
{
    let keys: [&str; 6] = ["id", "inventory_number", "asset_tag", "devicename", "assettype_name", "client_name"];
    let r = pick_fields(a, &keys);
    proof {
        assert(str_views(keys@) =~= seq![
            "id"@,
            "inventory_number"@,
            "asset_tag"@,
            "devicename"@,
            "assettype_name"@,
            "client_name"@,
        ]);
    }
    r
}

// ---------------------------------------------------------------------------
// Setting members
// ---------------------------------------------------------------------------

/// The index of the first member named `k`.
pub open spec fn key_index(es: Seq<(Seq<char>, JsonModel)>, k: Seq<char>) -> Option<int>
    decreases es.len(),
{
    if es.len() == 0 {
        None
    } else if es[0].0 == k {
        Some(0)
    } else {
        match key_index(es.drop_first(), k) {
            Some(j) => Some(j + 1),
            None => None,
        }
    }
}

proof fn lemma_key_index(es: Seq<(Seq<char>, JsonModel)>, k: Seq<char>, i: int)
    requires
        0 <= i <= es.len(),
        forall|j: int| 0 <= j < i ==> es[j].0 != k,
    ensures
        i < es.len() && es[i].0 == k ==> key_index(es, k) == Some(i),
        i == es.len() ==> key_index(es, k) is None,
    decreases i,
{
    if i > 0 {
        let t = es.drop_first();
        assert forall|j: int| 0 <= j < i - 1 implies t[j].0 != k by {
            assert(t[j] == es[j + 1]);
        }
        lemma_key_index(t, k, i - 1);
    }
}

/// `map.insert(k, v)` on an object's members: the member named `k` takes
/// the value `v` where there is one, else `(k, v)` is added at the end.
pub open spec fn set_entry(es: Seq<(Seq<char>, JsonModel)>, k: Seq<char>, v: JsonModel) -> Seq<
    (Seq<char>, JsonModel),
> {
    match key_index(es, k) {
        Some(j) => es.update(j, (k, v)),
        None => es.push((k, v)),
    }
}

/// `value[k] = v` for an object; any other value as is.
pub open spec fn spec_set_member(m: JsonModel, k: Seq<char>, v: JsonModel) -> JsonModel {
    match m {
        JsonModel::Object(es) => JsonModel::Object(set_entry(es, k, v)),
        _ => m,
    }
}

proof fn lemma_key_index_found(es: Seq<(Seq<char>, JsonModel)>, k: Seq<char>)
    ensures
        match key_index(es, k) {
            Some(j) => 0 <= j < es.len() && es[j].0 == k && forall|i: int| 0 <= i < j ==> es[i].0 != k,
            None => forall|i: int| 0 <= i < es.len() ==> es[i].0 != k,
        },
    decreases es.len(),
{
    if es.len() > 0 && es[0].0 != k {
        let t = es.drop_first();
        lemma_key_index_found(t, k);
        assert forall|i: int| 0 < i < es.len() implies es[i] == t[i - 1] by {}
    }
}

proof fn lemma_lookup_same_keys(a: Seq<(Seq<char>, JsonModel)>, b: Seq<(Seq<char>, JsonModel)>, k: Seq<char>)
    requires
        a.len() == b.len(),
        forall|i: int| 0 <= i < a.len() ==> #[trigger] a[i].0 == b[i].0,
        forall|i: int| 0 <= i < a.len() && a[i].0 == k ==> #[trigger] a[i].1 == b[i].1,
    ensures
        lookup(a, k) == lookup(b, k),
    decreases a.len(),
{
    if a.len() > 0 && a[0].0 != k {
        let ta = a.drop_first();
        let tb = b.drop_first();
        assert forall|i: int| 0 <= i < ta.len() implies #[trigger] ta[i].0 == tb[i].0 by {
            assert(ta[i] == a[i + 1] && tb[i] == b[i + 1]);
        }
        assert forall|i: int| 0 <= i < ta.len() && ta[i].0 == k implies #[trigger] ta[i].1 == tb[i].1 by {
            assert(ta[i] == a[i + 1] && tb[i] == b[i + 1]);
        }
        lemma_lookup_same_keys(ta, tb, k);
    }
}

proof fn lemma_lookup_push_other(es: Seq<(Seq<char>, JsonModel)>, e: (Seq<char>, JsonModel), k: Seq<char>)
    requires
        e.0 != k,
    ensures
        lookup(es.push(e), k) == lookup(es, k),
    decreases es.len(),
{
    if es.len() > 0 {
        assert(es.push(e)[0] == es[0]);
        if es[0].0 != k {
            assert(es.push(e).drop_first() =~= es.drop_first().push(e));
            lemma_lookup_push_other(es.drop_first(), e, k);
            assert(lookup(es.push(e), k) == lookup(es.push(e).drop_first(), k));
            assert(lookup(es, k) == lookup(es.drop_first(), k));
        }
    } else {
        assert(es.push(e)[0] == e);
        assert(es.push(e).drop_first() =~= Seq::<(Seq<char>, JsonModel)>::empty());
        assert(lookup(es.push(e), k) == lookup(es.push(e).drop_first(), k));
        assert(lookup(Seq::<(Seq<char>, JsonModel)>::empty(), k) is None);
    }
}

/// Law: after `value[k] = v` on an object, reading `k` gives `v`, and every
/// other member reads as before.
pub proof fn lemma_get_after_set(m: JsonModel, k: Seq<char>, v: JsonModel, other: Seq<char>)
    requires
        m is Object,
    ensures
        spec_set_member(m, k, v) is Object,
        spec_get(spec_set_member(m, k, v), k) == Some(v),
        other != k ==> spec_get(spec_set_member(m, k, v), other) == spec_get(m, other),
{
    let es = m->Object_0;
    lemma_key_index_found(es, k);
    match key_index(es, k) {
        Some(j) => {
            let es2 = es.update(j, (k, v));
            lemma_lookup_first(es2, k, j);
            if other != k {
                lemma_lookup_same_keys(es, es2, other);
            }
        },
        None => {
            let es2 = es.push((k, v));
            lemma_lookup_first(es2, k, es.len() as int);
            if other != k {
                lemma_lookup_push_other(es, (k, v), other);
            }
        },
    }
}

/// Sets the member `key` of an object to `v`.
pub fn set_member(value: &mut JsonValue, key: &str, v: JsonValue)
    ensures
        model(*final(value)) == spec_set_member(model(*old(value)), key@, model(v)),
{
    let updated = match &*value {
        JsonValue::Object(entries) => {
            proof {
                lemma_entry_models_index(entries@);
            }
            let ghost ms = entry_models(entries@);
            let mut j: usize = 0;
            while j < entries.len()
                invariant
                    0 <= j <= entries@.len(),
                    ms == entry_models(entries@),
                    ms.len() == entries@.len(),
                    forall|x: int| 0 <= x < entries@.len() ==> #[trigger] ms[x] == (entries@[x].key@, model(entries@[x].value)),
                    forall|x: int| 0 <= x < j ==> ms[x].0 != key@,
                ensures
                    0 <= j <= entries@.len(),
                    forall|x: int| 0 <= x < j ==> ms[x].0 != key@,
                    j < entries@.len() ==> ms[j as int].0 == key@,
                decreases entries@.len() - j,
            {
                if str_eq(entries[j].key.as_str(), key) {
                    break;
                }
                j = j + 1;
            }
            proof {
                lemma_key_index(ms, key@, j as int);
            }
            let ghost target = set_entry(ms, key@, model(v));
            let mut out: Vec<JsonEntry> = Vec::new();
            let mut i: usize = 0;
            let mut val = Some(v);
            proof {
                lemma_entry_models_index(out@);
            }
            while i < entries.len()
                invariant
                    0 <= i <= entries@.len(),
                    0 <= j <= entries@.len(),
                    ms == entry_models(entries@),
                    ms.len() == entries@.len(),
                    forall|x: int| 0 <= x < entries@.len() ==> #[trigger] ms[x] == (entries@[x].key@, model(entries@[x].value)),
                    j < entries@.len() ==> ms[j as int].0 == key@,
                    target == if j < entries@.len() {
                        ms.update(j as int, (key@, model(v)))
                    } else {
                        ms.push((key@, model(v)))
                    },
                    entry_models(out@).len() == i,
                    forall|x: int| 0 <= x < i ==> #[trigger] entry_models(out@)[x] == target[x],
                    (i <= j) ==> val == Some(v),
                decreases entries@.len() - i,
            {
                let e = &entries[i];
                let ghost before = out@;
                if i == j {
                    let nv = match val.take() {
                        Some(x) => x,
                        None => JsonValue::Null,
                    };
                    out.push(JsonEntry { key: key.to_owned(), value: nv });
                } else {
                    out.push(JsonEntry { key: e.key.clone(), value: copy_json(&e.value) });
                }
                proof {
                    assert(out@.subrange(0, out@.len() - 1) =~= before);
                    lemma_entry_models_index(before);
                    lemma_entry_models_index(out@);
                }
                i = i + 1;
            }
            if j == entries.len() {
                let nv = match val.take() {
                    Some(x) => x,
                    None => JsonValue::Null,
                };
                let ghost before = out@;
                out.push(JsonEntry { key: key.to_owned(), value: nv });
                proof {
                    assert(out@.subrange(0, out@.len() - 1) =~= before);
                    lemma_entry_models_index(before);
                    lemma_entry_models_index(out@);
                }
            }
            proof {
                lemma_entry_models_index(out@);
                assert(entry_models(out@) =~= target);
            }
            Some(JsonValue::Object(out))
        },
        _ => None,
    };
    match updated {
        Some(u) => {
            *value = u;
        },
        None => {},
    }
}

/// One identity claim copied from a token's claims onto a result object.
pub open spec fn claim_step(r: JsonModel, claims: JsonModel, k: Seq<char>) -> JsonModel {
    match spec_get(claims, k) {
        Some(x) => spec_set_member(r, k, x),
        None => r,
    }
}

/// The identity claims `sub`, `agentid`, `agent_id`, `name`, `email` and
/// `preferred_username`, in that order, copied onto `r`.
pub open spec fn spec_merge_claims(r: JsonModel, claims: JsonModel) -> JsonModel {
    let r1 = claim_step(r, claims, "sub"@);
    let r2 = claim_step(r1, claims, "agentid"@);
    let r3 = claim_step(r2, claims, "agent_id"@);
    let r4 = claim_step(r3, claims, "name"@);
    let r5 = claim_step(r4, claims, "email"@);
    claim_step(r5, claims, "preferred_username"@)
}

fn copy_claim(result: &mut JsonValue, claims: &JsonValue, key: &str)
    ensures
        model(*final(result)) == claim_step(model(*old(result)), model(*claims), key@),
{
    match get(claims, key) {
        Some(x) => {
            let c = copy_json(x);
            set_member(result, key, c);
        },
        None => {},
    }
}

/// Adds the caller's identity claims from the access token to the
/// `AuthInfo` reply (the fallback when `/api/agent/me` fails).
pub fn merge_claims(result: &mut JsonValue, claims: &JsonValue)
    ensures
        model(*final(result)) == spec_merge_claims(model(*old(result)), model(*claims)),
{
    copy_claim(result, claims, "sub");
    copy_claim(result, claims, "agentid");
    copy_claim(result, claims, "agent_id");
    copy_claim(result, claims, "name");
    copy_claim(result, claims, "email");
    copy_claim(result, claims, "preferred_username");
}

// ---------------------------------------------------------------------------
// Site addresses
// ---------------------------------------------------------------------------

/// The member `from` of `m`, where present, appended to `acc` as `to`.
pub open spec fn rename_into(
    acc: Seq<(Seq<char>, JsonModel)>,
    m: JsonModel,
    from: Seq<char>,
    to: Seq<char>,
) -> Seq<(Seq<char>, JsonModel)> {
    match spec_get(m, from) {
        Some(v) => acc.push((to, v)),
        None => acc,
    }
}

/// The address members a site call gives: `address_line1`..`address_line4`
/// and `address_postcode` as `line1`..`line4` and `postcode`.
pub open spec fn site_address_members(args: JsonModel) -> Seq<(Seq<char>, JsonModel)> {
    let a1 = rename_into(Seq::empty(), args, "address_line1"@, "line1"@);
    let a2 = rename_into(a1, args, "address_line2"@, "line2"@);
    let a3 = rename_into(a2, args, "address_line3"@, "line3"@);
    let a4 = rename_into(a3, args, "address_line4"@, "line4"@);
    rename_into(a4, args, "address_postcode"@, "postcode"@)
}

/// The HaloPSA address object of a site call, none when no address
/// argument is given.
pub open spec fn spec_site_address(args: JsonModel) -> Option<JsonModel> {
    if site_address_members(args).len() == 0 {
        None
    } else {
        Some(JsonModel::Object(site_address_members(args)))
    }
}

fn push_renamed(out: &mut Vec<JsonEntry>, args: &JsonValue, from: &str, to: &str)
    ensures
        entry_models(final(out)@) == rename_into(entry_models(old(out)@), model(*args), from@, to@),
{
    match get(args, from) {
        Some(x) => {
            let c = copy_json(x);
            let e = JsonEntry { key: to.to_owned(), value: c };
            let ghost before = out@;
            out.push(e);
            proof {
                assert(out@.subrange(0, out@.len() - 1) =~= before);
                assert(out@[out@.len() - 1] == e);
            }
        },
        None => {},
    }
}

/// Builds the address of a site from the call's arguments.
pub fn build_site_address(args: &JsonValue) -> (r: Option<JsonValue>)
    ensures
        match r {
            Some(a) => spec_site_address(model(*args)) == Some(model(a)),
            None => spec_site_address(model(*args)) is None,
        },
{
    let mut out: Vec<JsonEntry> = Vec::new();
    proof {
        assert(entry_models(out@) =~= Seq::<(Seq<char>, JsonModel)>::empty());
    }
    push_renamed(&mut out, args, "address_line1", "line1");
    push_renamed(&mut out, args, "address_line2", "line2");
    push_renamed(&mut out, args, "address_line3", "line3");
    push_renamed(&mut out, args, "address_line4", "line4");
    push_renamed(&mut out, args, "address_postcode", "postcode");
    proof {
        lemma_entry_models_index(out@);
    }
    if out.len() == 0 {
        None
    } else {
        Some(JsonValue::Object(out))
    }
}

/// Drops the permission members `access_control` and `claims` of an agent
/// record (thousands of rows for an administrator, read by nobody).
pub fn strip_agent_bloat(value: &mut JsonValue)
    ensures
        model(*final(value)) == spec_remove_member(
            spec_remove_member(model(*old(value)), "access_control"@),
            "claims"@,
        ),
{
    remove_member(value, "access_control");
    remove_member(value, "claims");
}

// ---------------------------------------------------------------------------
// Report filters
// ---------------------------------------------------------------------------

/// The `{value, label}` entries of the string items of a rule's values.
pub open spec fn rule_values(items: Seq<JsonModel>) -> Seq<JsonModel>
    decreases items.len(),
{
    if items.len() == 0 {
        Seq::empty()
    } else {
        let r = rule_values(items.subrange(0, items.len() - 1));
        match items[items.len() - 1] {
            JsonModel::Str(t) => r.push(
                JsonModel::Object(seq![("value"@, JsonModel::Str(t)), ("label"@, JsonModel::Str(t))]),
            ),
            _ => r,
        }
    }
}

/// One report filter read from a `run_report` call: `fieldname` (string),
/// `stringruletype` (integer) and `stringrulevalues` (array) are required,
/// checked in that order.
pub open spec fn spec_report_filter(f: JsonModel) -> Result<JsonModel, Seq<char>> {
    match spec_arg_str(f, "fieldname"@) {
        None => Err("filters[].fieldname is required"@),
        Some(name) => match spec_arg_i64(f, "stringruletype"@) {
            None => Err("filters[].stringruletype is required"@),
            Some(t) => match spec_get(f, "stringrulevalues"@) {
                Some(JsonModel::Array(items)) => Ok(
                    JsonModel::Object(
                        seq![
                            ("fieldname"@, JsonModel::Str(name)),
                            ("stringruletype"@, JsonModel::Int(t)),
                            ("stringrulevalues"@, JsonModel::Array(rule_values(items))),
                        ],
                    ),
                ),
                _ => Err("filters[].stringrulevalues is required"@),
            },
        },
    }
}

/// Every filter in order, or the error of the first one that is malformed.
pub open spec fn report_filters_of(items: Seq<JsonModel>) -> Result<Seq<JsonModel>, Seq<char>>
    decreases items.len(),
{
    if items.len() == 0 {
        Ok(Seq::empty())
    } else {
        match report_filters_of(items.subrange(0, items.len() - 1)) {
            Err(e) => Err(e),
            Ok(r) => match spec_report_filter(items[items.len() - 1]) {
                Err(e) => Err(e),
                Ok(x) => Ok(r.push(x)),
            },
        }
    }
}

/// The filters of a `run_report` call: none without a `filters` array.
pub open spec fn spec_report_filters(args: JsonModel) -> Result<Seq<JsonModel>, Seq<char>> {
    match spec_get(args, "filters"@) {
        Some(JsonModel::Array(items)) => report_filters_of(items),
        _ => Ok(Seq::empty()),
    }
}

fn rule_values_exec(items: &Vec<JsonValue>) -> (r: Vec<JsonValue>)
    ensures
        models(r@) == rule_values(models(items@)),
{
    let mut out: Vec<JsonValue> = Vec::new();
    let mut i: usize = 0;
    proof {
        lemma_models_index(items@);
        assert(models(items@).take(0) =~= Seq::<JsonModel>::empty());
    }
    while i < items.len()
        invariant
            0 <= i <= items@.len(),
            models(items@).len() == items@.len(),
            forall|j: int| 0 <= j < items@.len() ==> #[trigger] models(items@)[j] == model(items@[j]),
            models(out@) == rule_values(models(items@).take(i as int)),
        decreases items@.len() - i,
    {
        let ghost ms = models(items@);
        proof {
            assert(ms.take(i + 1).subrange(0, i as int) =~= ms.take(i as int));
            assert(ms.take(i + 1)[i as int] == model(items@[i as int]));
        }
        match &items[i] {
            JsonValue::Str(t) => {
                let mut es: Vec<JsonEntry> = Vec::new();
                es.push(JsonEntry { key: "value".to_owned(), value: JsonValue::Str(t.clone()) });
                es.push(JsonEntry { key: "label".to_owned(), value: JsonValue::Str(t.clone()) });
                proof {
                    lemma_entry_models_index(es@);
                    assert(entry_models(es@) =~= seq![("value"@, JsonModel::Str(t@)), ("label"@, JsonModel::Str(t@))]);
                }
                let entry = JsonValue::Object(es);
                let ghost before = out@;
                out.push(entry);
                proof {
                    assert(out@.subrange(0, out@.len() - 1) =~= before);
                    assert(models(out@) == models(before).push(model(entry)));
                }
            },
            _ => {},
        }
        i = i + 1;
    }
    proof {
        assert(models(items@).take(i as int) =~= models(items@));
    }
    out
}

fn report_filter(f: &JsonValue) -> (r: Result<JsonValue, String>)
    ensures
        match spec_report_filter(model(*f)) {
            Ok(x) => r matches Ok(v) && model(v) == x,
            Err(e) => r matches Err(m) && m@ == e,
        },
{
    let name = match arg_str(f, "fieldname") {
        Some(n) => n,
        None => return Err("filters[].fieldname is required".to_owned()),
    };
    let rule_type = match arg_i64(f, "stringruletype") {
        Some(t) => t,
        None => return Err("filters[].stringruletype is required".to_owned()),
    };
    let values = match get(f, "stringrulevalues") {
        Some(JsonValue::Array(items)) => rule_values_exec(items),
        _ => return Err("filters[].stringrulevalues is required".to_owned()),
    };
    let mut es: Vec<JsonEntry> = Vec::new();
    es.push(JsonEntry { key: "fieldname".to_owned(), value: JsonValue::Str(name) });
    es.push(JsonEntry { key: "stringruletype".to_owned(), value: JsonValue::Int(rule_type) });
    es.push(JsonEntry { key: "stringrulevalues".to_owned(), value: JsonValue::Array(values) });
    proof {
        lemma_entry_models_index(es@);
    }
    let r = JsonValue::Object(es);
    proof {
        assert(entry_models(es@) =~= seq![
            ("fieldname"@, JsonModel::Str(es@[0].value->Str_0@)),
            ("stringruletype"@, JsonModel::Int(rule_type)),
            ("stringrulevalues"@, model(es@[2].value)),
        ]);
    }
    Ok(r)
}

/// Reads the report filters of a `run_report` call.
pub fn report_filters(args: &JsonValue) -> (r: Result<Vec<JsonValue>, String>)
    ensures
        match spec_report_filters(model(*args)) {
            Ok(fs) => r matches Ok(v) && models(v@) == fs,
            Err(e) => r matches Err(m) && m@ == e,
        },
{
    let items = match get(args, "filters") {
        Some(JsonValue::Array(items)) => items,
        _ => {
            let v: Vec<JsonValue> = Vec::new();
            proof {
                assert(models(v@) =~= Seq::<JsonModel>::empty());
            }
            return Ok(v);
        },
    };
    let mut out: Vec<JsonValue> = Vec::new();
    let mut i: usize = 0;
    proof {
        lemma_models_index(items@);
        assert(models(items@).take(0) =~= Seq::<JsonModel>::empty());
    }
    while i < items.len()
        invariant
            0 <= i <= items@.len(),
            models(items@).len() == items@.len(),
            forall|j: int| 0 <= j < items@.len() ==> #[trigger] models(items@)[j] == model(items@[j]),
            report_filters_of(models(items@).take(i as int)) == Ok::<Seq<JsonModel>, Seq<char>>(models(out@)),
            spec_report_filters(model(*args)) == report_filters_of(models(items@)),
        decreases items@.len() - i,
    {
        let ghost ms = models(items@);
        proof {
            assert(ms.take(i + 1).subrange(0, i as int) =~= ms.take(i as int));
            assert(ms.take(i + 1)[i as int] == model(items@[i as int]));
        }
        match report_filter(&items[i]) {
            Ok(x) => {
                let ghost before = out@;
                out.push(x);
                proof {
                    assert(out@.subrange(0, out@.len() - 1) =~= before);
                    assert(models(out@) == models(before).push(model(x)));
                }
            },
            Err(e) => {
                proof {
                    assert(report_filters_of(ms.take(i + 1)) == Err::<Seq<JsonModel>, Seq<char>>(e@));
                    lemma_report_filters_error_persists(ms, i as int + 1);
                }
                return Err(e);
            },
        }
        i = i + 1;
    }
    proof {
        assert(models(items@).take(i as int) =~= models(items@));
    }
    Ok(out)
}

proof fn lemma_report_filters_error_persists(items: Seq<JsonModel>, k: int)
    requires
        0 < k <= items.len(),
        report_filters_of(items.take(k)) is Err,
    ensures
        report_filters_of(items) == report_filters_of(items.take(k)),
    decreases items.len() - k,
{
    if k < items.len() {
        assert(items.take(k + 1).subrange(0, k) =~= items.take(k));
        lemma_report_filters_error_persists(items, k + 1);
    } else {
        assert(items.take(k) =~= items);
    }
}

} // verus!
