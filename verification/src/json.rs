//! The trusted boundary to `serde_json`, which does the JSON parsing.
//!
//! Everything the parser hands back is described by one mathematical model:
//! `json_model_of(body)` names the parse result of a body text, and
//! `json_model(v)` names the contents of a parsed value. Each accessor's
//! contract states, over that model, exactly what the `serde_json` source
//! shows of the one call its body makes.

use vstd::prelude::*;

verus! {

#[verifier::external_type_specification]
#[verifier::external_body]
pub struct ExJsonValue(serde_json::Value);

#[verifier::external_type_specification]
#[verifier::external_body]
pub struct ExSerdeJsonError(serde_json::Error);

/// Mathematical image of a parsed JSON value. A number is carried as its
/// `i64` reading where it has one (`None` covers fractional and
/// out-of-range numbers, which this library never consumes); an object is
/// the map of its keys, duplicates already resolved by the parser.
pub enum JsonModel {
    Null,
    Bool(bool),
    Num(Option<i64>),
    Text(Seq<char>),
    Array(Seq<JsonModel>),
    Object(Map<Seq<char>, JsonModel>),
}

/// What `serde_json::from_str` turns a given text into when asked for the
/// positional `opensearch` shape: the result depends on the text alone.
pub uninterp spec fn search_wire_of(body: Seq<char>) -> Result<
    (Seq<char>, Seq<Seq<char>>, Seq<Seq<char>>, Seq<Seq<char>>),
    (),
>;

/// What `serde_json::from_str` turns a given text into when asked for a
/// `serde_json::Value`: `Err` when the parser refuses the text, else the
/// model of the parsed value. The result depends on the text alone.
pub uninterp spec fn json_model_of(body: Seq<char>) -> Result<JsonModel, ()>;

/// The contents of a parsed `serde_json::Value`, as its mathematical model.
pub uninterp spec fn json_model(v: serde_json::Value) -> JsonModel;

/// Whether the parser accepts a given text as JSON.
pub open spec fn json_accepts(body: Seq<char>) -> bool {
    json_model_of(body) is Ok
}

/// Relies on `serde_json::from_str` deserializing into the tuple
/// `(String, Vec<String>, Vec<String>, Vec<String>)`: it succeeds exactly
/// when the text is a JSON array of a string and three string arrays, and
/// the result is a function of the text alone, here named `search_wire_of`.
#[verifier::external_body]
pub(crate) fn parse_search_wire(body: &str) -> (r: Result<(String, Vec<String>, Vec<String>, Vec<String>), serde_json::Error>)
    ensures
        match r {
            Ok(w) => search_wire_of(body@) == Ok::<
                (Seq<char>, Seq<Seq<char>>, Seq<Seq<char>>, Seq<Seq<char>>),
                (),
            >((w.0@, w.1.deep_view(), w.2.deep_view(), w.3.deep_view())),
            Err(_) => search_wire_of(body@) is Err,
        },
{
    serde_json::from_str(body)
}

/// Relies on `serde_json::from_str` deserializing into `serde_json::Value`:
/// it succeeds exactly when the parser accepts the text as JSON (within its
/// own limits, such as its nesting cap), and the parsed value is a function
/// of the text alone, here named through `json_model_of`.
#[verifier::external_body]
pub(crate) fn json_from_str(body: &str) -> (r: Result<serde_json::Value, serde_json::Error>)
    ensures
        match r {
            Ok(v) => json_model_of(body@) == Ok::<JsonModel, ()>(json_model(v)),
            Err(_) => json_model_of(body@) is Err,
        },
{
    serde_json::from_str(body)
}

/// Relies on `serde_json::Value::get` with a string index: `Some` exactly
/// when the value is an object holding that key, then borrowing the entry.
#[verifier::external_body]
pub(crate) fn json_get<'a>(v: &'a serde_json::Value, key: &str) -> (r: Option<&'a serde_json::Value>)
    ensures
        match r {
            Some(x) => (json_model(*v) matches JsonModel::Object(o) && o.contains_key(key@)
                && json_model(*x) == o[key@]),
            None => !(json_model(*v) matches JsonModel::Object(o) && o.contains_key(key@)),
        },
{
    v.get(key)
}

/// Relies on `serde_json::Value::as_bool`: `Some` exactly when the value is
/// a JSON boolean, then carrying that boolean.
#[verifier::external_body]
pub(crate) fn json_as_bool(v: &serde_json::Value) -> (r: Option<bool>)
    ensures
        r == (match json_model(*v) {
            JsonModel::Bool(b) => Some(b),
            _ => None::<bool>,
        }),
{
    v.as_bool()
}

/// Relies on `serde_json::Value::as_i64`: `Some` exactly when the value is
/// a JSON number with an `i64` reading, then carrying that reading.
#[verifier::external_body]
pub(crate) fn json_as_i64(v: &serde_json::Value) -> (r: Option<i64>)
    ensures
        r == (match json_model(*v) {
            JsonModel::Num(o) => o,
            _ => None::<i64>,
        }),
{
    v.as_i64()
}

/// Relies on `serde_json::Value::as_str`: `Some` exactly when the value is
/// a JSON string, then borrowing that string.
#[verifier::external_body]
pub(crate) fn json_as_str<'a>(v: &'a serde_json::Value) -> (r: Option<&'a str>)
    ensures
        match r {
            Some(s) => (json_model(*v) matches JsonModel::Text(t) && s@ == t),
            None => !(json_model(*v) is Text),
        },
{
    v.as_str()
}

/// Relies on `serde_json::Value::as_array`: `Some` exactly when the value is
/// a JSON array, then borrowing its elements, in order.
#[verifier::external_body]
pub(crate) fn json_as_array<'a>(v: &'a serde_json::Value) -> (r: Option<&'a Vec<serde_json::Value>>)
    ensures
        match r {
            Some(a) => (json_model(*v) matches JsonModel::Array(elems) && a@.len() == elems.len()
                && forall|i: int| 0 <= i < elems.len() ==> json_model(a@[i]) == elems[i]),
            None => !(json_model(*v) is Array),
        },
{
    v.as_array()
}

} // verus!
