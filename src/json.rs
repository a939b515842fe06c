//! A JSON document model, and the parse of JSON text into it.
use vstd::prelude::*;

verus! {

/// A parsed JSON document. Numbers keep their decimal rendering (an integer
/// as plain digits, with a leading `-` when negative; any other number with a
/// fraction or an exponent), so no value is rounded on its way through.
#[derive(Debug, PartialEq)]
pub enum JsonValue {
    Null,
    Bool(bool),
    Number(String),
    Str(String),
    Array(Vec<JsonValue>),
    Object(Vec<(String, JsonValue)>),
}

/// The mathematical model of a [`JsonValue`].
pub enum Json {
    Null,
    Bool(bool),
    Number(Seq<char>),
    Str(Seq<char>),
    Array(Seq<Json>),
    Object(Seq<(Seq<char>, Json)>),
}

pub open spec fn json_view(v: JsonValue) -> Json
    decreases v,
    via json_view_decreases
{

    match v {
        JsonValue::Null => Json::Null,
        JsonValue::Bool(b) => Json::Bool(b),
        JsonValue::Number(n) => Json::Number(n@),
        JsonValue::Str(s) => Json::Str(s@),
        JsonValue::Array(a) => Json::Array(
            Seq::new(
                a.len() as nat,
                |i: int|
                    if 0 <= i < a.len() {
                        json_view(a[i])
                    } else {
                        Json::Null
                    },
            ),
        ),
        JsonValue::Object(o) => Json::Object(
            Seq::new(
                o.len() as nat,
                |i: int|
                    if 0 <= i < o.len() {
                        (o[i].0@, json_view(o[i].1))
                    } else {
                        (Seq::empty(), Json::Null)
                    },
            ),
        ),
    }
}

#[via_fn]
proof fn json_view_decreases(v: JsonValue) {
    broadcast use vstd::std_specs::vec::axiom_vec_index_decreases;

    match v {
        JsonValue::Array(a) => {
            assert forall|i: int| 0 <= i < a.len() implies decreases_to!(v => a[i]) by {
                assert(decreases_to!(a => a[i]));
            }
        },
        JsonValue::Object(o) => {
            assert forall|i: int| 0 <= i < o.len() implies decreases_to!(v => o[i].1) by {
                assert(decreases_to!(o => o[i]));
            }
        },
        _ => {},
    }
}

impl View for JsonValue {
    type V = Json;

    open spec fn view(&self) -> Json {
        json_view(*self)
    }
}


/// What serde_json makes of a JSON text, in the model: `None` where the text
/// is not one JSON document.
pub uninterp spec fn json_document(text: Seq<char>) -> Option<Json>;

#[verifier::external_type_specification]
#[verifier::external_body]
pub struct ExSerdeValue(serde_json::Value);

/// Relies on serde_json::from_str into serde_json::Value: parses the text as
/// one JSON document, or fails; the result depends on the text alone.
#[verifier::external_body]
fn parse_document(text: &str) -> (r: Option<JsonValue>)
    ensures
        r matches Some(v) ==> json_document(text@) == Some(v@),
        r is None ==> json_document(text@) is None,
{
    serde_json::from_str::<serde_json::Value>(text).ok().map(from_serde_value)
}

/// Moves a serde_json document into the library's own model, variant for
/// variant; a number becomes its `Display` text.
#[verifier::external_body]
fn from_serde_value(v: serde_json::Value) -> JsonValue {
    match v {
        serde_json::Value::Null => JsonValue::Null,
        serde_json::Value::Bool(b) => JsonValue::Bool(b),
        serde_json::Value::Number(n) => JsonValue::Number(n.to_string()),
        serde_json::Value::String(s) => JsonValue::Str(s),
        serde_json::Value::Array(a) => JsonValue::Array(a.into_iter().map(from_serde_value).collect()),
        serde_json::Value::Object(o) => JsonValue::Object(
            o.into_iter().map(|(k, x)| (k, from_serde_value(x))).collect(),
        ),
    }
}

/// Parses JSON text into the document model; `None` where the text is not
/// one JSON document.
pub fn parse_json(text: &str) -> (r: Option<JsonValue>)
    ensures
        r is Some <==> json_document(text@) is Some,
        r matches Some(v) ==> json_document(text@) == Some(v@),
{
    parse_document(text)
}

/// A copy of a document, equal to it in the model.
pub fn copy_json(v: &JsonValue) -> (r: JsonValue)
    ensures
        r@ == v@,
    decreases v,
{
    match v {
        JsonValue::Null => JsonValue::Null,
        JsonValue::Bool(b) => JsonValue::Bool(*b),
        JsonValue::Number(n) => JsonValue::Number(n.clone()),
        JsonValue::Str(s) => JsonValue::Str(s.clone()),
        JsonValue::Array(a) => {
            let mut out: Vec<JsonValue> = Vec::new();
            let mut i: usize = 0;
            while i < a.len()
                invariant
                    i <= a.len(),
                    *v == JsonValue::Array(*a),
                    out.len() == i,
                    forall|j: int| 0 <= j < i ==> #[trigger] json_view(out[j]) == json_view(a[j]),
                decreases a.len() - i,
            {
                proof {
                    vstd::std_specs::vec::axiom_vec_index_decreases(*a, i as int);
                    assert(decreases_to!(*v => (*v)->Array_0));
                    assert(decreases_to!((*v)->Array_0 => (*v)->Array_0[i as int]));
                }
                let c = copy_json(&a[i]);
                out.push(c);
                i = i + 1;
            }
            let r = JsonValue::Array(out);
            assert(json_view(r)->Array_0 =~= json_view(*v)->Array_0) by {
                assert forall|j: int| 0 <= j < out.len() implies json_view(r)->Array_0[j] == json_view(
                    out[j],
                ) by {}
            }
            r
        },
        JsonValue::Object(o) => {
            let mut out: Vec<(String, JsonValue)> = Vec::new();
            let mut i: usize = 0;
            while i < o.len()
                invariant
                    i <= o.len(),
                    *v == JsonValue::Object(*o),
                    out.len() == i,
                    forall|j: int| 0 <= j < i ==> #[trigger] out[j].0@ == o[j].0@ && json_view(out[j].1) == json_view(o[j].1),
                decreases o.len() - i,
            {
                proof {
                    vstd::std_specs::vec::axiom_vec_index_decreases(*o, i as int);
                    assert(decreases_to!(*v => (*v)->Object_0));
                    assert(decreases_to!((*v)->Object_0 => (*v)->Object_0[i as int]));
                    assert(decreases_to!((*v)->Object_0[i as int] => (*v)->Object_0[i as int].1));
                }
                let c = copy_json(&o[i].1);
                out.push((o[i].0.clone(), c));
                i = i + 1;
            }
            let r = JsonValue::Object(out);
            assert(json_view(r)->Object_0 =~= json_view(*v)->Object_0);
            r
        },
    }
}

/// The value of the first entry of `o` from index `i` on whose key is `k`.
pub open spec fn lookup_from(o: Seq<(Seq<char>, Json)>, k: Seq<char>, i: int) -> Option<Json>
    decreases o.len() - i,
{
    if i < 0 || i >= o.len() {
        None
    } else if o[i].0 == k {
        Some(o[i].1)
    } else {
        lookup_from(o, k, i + 1)
    }
}

/// The value of a member of an object: the first entry under the key.
pub open spec fn lookup(o: Seq<(Seq<char>, Json)>, k: Seq<char>) -> Option<Json> {
    lookup_from(o, k, 0)
}

/// The member `k` of a JSON value, where it is an object that has one.
pub open spec fn member(j: Json, k: Seq<char>) -> Option<Json> {
    match j {
        Json::Object(o) => lookup(o, k),
        _ => None,
    }
}

/// Finds the member `key` of an object's entries.
pub fn find_member<'a>(entries: &'a Vec<(String, JsonValue)>, key: &str) -> (r: Option<&'a JsonValue>)
    ensures
        r is Some <==> lookup(JsonValue::Object(*entries)@->Object_0, key@) is Some,
        r matches Some(v) ==> lookup(JsonValue::Object(*entries)@->Object_0, key@) == Some(v@),
{
    let ghost ov = JsonValue::Object(*entries)@->Object_0;
    let k = String::from_str(key);
    let mut i: usize = 0;
    while i < entries.len()
        invariant
            i <= entries.len(),
            ov.len() == entries.len(),
            k@ == key@,
            ov == JsonValue::Object(*entries)@->Object_0,
            lookup(ov, key@) == lookup_from(ov, key@, i as int),
        decreases entries.len() - i,
    {
        assert(ov[i as int] == (entries[i as int].0@, json_view(entries[i as int].1)));
        if entries[i].0 == k {
            return Some(&entries[i].1);
        }
        i = i + 1;
    }
    None
}

/// Whether two texts are equal.
pub fn same_text(a: &str, b: &str) -> (r: bool)
    ensures
        r == (a@ == b@),
{
    String::from_str(a) == String::from_str(b)
}

} // verus!
