use vstd::prelude::*;

verus! {

/// The mathematical model of a JSON document: what a parsed value holds,
/// with a number modelled by the 64-bit integer it yields, if any, and
/// by the text it renders to.
pub enum JsonModel {
    Null,
    Bool(bool),
    Num { as_int: Option<i64>, text: Seq<char> },
    Str(Seq<char>),
    Arr(Seq<JsonModel>),
    Obj(Map<Seq<char>, JsonModel>),
}

/// The model of the value a string parses to, or `None` where parsing
/// fails; parsing is a function of the text alone.
pub uninterp spec fn json_of(s: Seq<char>) -> Option<JsonModel>;

/// The model of a parsed JSON value; every trusted accessor below is
/// specified against it.
pub uninterp spec fn json_model(v: serde_json::Value) -> JsonModel;

/// The entry of an object under a key; `None` for a missing key or for a
/// value that is no object.
pub open spec fn model_entry(m: JsonModel, k: Seq<char>) -> Option<JsonModel> {
    match m {
        JsonModel::Obj(o) => if o.dom().contains(k) {
            Some(o[k])
        } else {
            None
        },
        _ => None,
    }
}

pub open spec fn model_is_null(m: JsonModel) -> bool {
    m matches JsonModel::Null
}

pub open spec fn model_str(m: JsonModel) -> Option<Seq<char>> {
    match m {
        JsonModel::Str(s) => Some(s),
        _ => None,
    }
}

pub open spec fn model_bool(m: JsonModel) -> Option<bool> {
    match m {
        JsonModel::Bool(b) => Some(b),
        _ => None,
    }
}

/// The 64-bit integer a JSON number yields, where it yields one.
pub open spec fn model_int(m: JsonModel) -> Option<i64> {
    match m {
        JsonModel::Num { as_int, text } => as_int,
        _ => None,
    }
}

/// The rendered text of a JSON number.
pub open spec fn model_num_text(m: JsonModel) -> Option<Seq<char>> {
    match m {
        JsonModel::Num { as_int, text } => Some(text),
        _ => None,
    }
}

pub open spec fn model_arr(m: JsonModel) -> Option<Seq<JsonModel>> {
    match m {
        JsonModel::Arr(ms) => Some(ms),
        _ => None,
    }
}

/// serde_json's dynamic JSON value, declared so that verified code can
/// hold parsed JSON trees and hand them to the trusted accessors below;
/// the library never reads inside such a value except through them.
#[verifier::external_type_specification]
#[verifier::external_body]
pub struct ExJsonValue(serde_json::Value);

/// Relies on serde_json::from_str: parses text into a JSON value tree,
/// deterministically in the text, or reports the parse error rendered as
/// its message.
#[verifier::external_body]
pub(crate) fn json_parse(s: &str) -> (r: Result<serde_json::Value, String>)
    ensures
        r matches Ok(v) ==> json_of(s@) == Some(json_model(v)),
        r is Ok <==> json_of(s@) is Some,
{
    match serde_json::from_str::<serde_json::Value>(s) {
        Ok(v) => Ok(v),
        Err(e) => Err(e.to_string()),
    }
}

/// Relies on serde_json::Value::get: the value under a key, exactly when
/// the value is an object holding that key.
#[verifier::external_body]
pub(crate) fn json_get<'a>(v: &'a serde_json::Value, key: &str) -> (r: Option<
    &'a serde_json::Value,
>)
    ensures
        r matches Some(x) ==> model_entry(json_model(*v), key@) == Some(json_model(*x)),
        r is Some <==> model_entry(json_model(*v), key@) is Some,
{
    v.get(key)
}

/// Relies on serde_json::Value::is_null.
#[verifier::external_body]
pub(crate) fn json_is_null(v: &serde_json::Value) -> (r: bool)
    ensures
        r == model_is_null(json_model(*v)),
{
    v.is_null()
}

/// Relies on serde_json::Value::as_str: the text of a JSON string, owned;
/// `None` exactly for non-strings.
#[verifier::external_body]
pub(crate) fn json_as_string(v: &serde_json::Value) -> (r: Option<String>)
    ensures
        r matches Some(s) ==> model_str(json_model(*v)) == Some(s@),
        r is Some <==> model_str(json_model(*v)) is Some,
{
    match v.as_str() {
        Some(s) => Some(s.to_string()),
        None => None,
    }
}

/// Relies on serde_json::Value::as_i64: the value of a JSON integer that
/// fits in a signed 64-bit number, `None` for everything else.
#[verifier::external_body]
pub(crate) fn json_as_i64(v: &serde_json::Value) -> (r: Option<i64>)
    ensures
        r == model_int(json_model(*v)),
{
    v.as_i64()
}

/// Relies on serde_json::Value::as_bool.
#[verifier::external_body]
pub(crate) fn json_as_bool(v: &serde_json::Value) -> (r: Option<bool>)
    ensures
        r == model_bool(json_model(*v)),
{
    v.as_bool()
}

/// Relies on serde_json::Value::as_array: the elements of a JSON array,
/// `None` exactly for non-arrays.
#[verifier::external_body]
pub(crate) fn json_as_array<'a>(v: &'a serde_json::Value) -> (r: Option<&'a Vec<serde_json::Value>>)
    ensures
        r matches Some(a) ==> (model_arr(json_model(*v)) matches Some(ms) && a@.len() == ms.len() && forall|i: int| 0 <= i < ms.len() ==> json_model(a@[i]) == ms[i]),
        r is Some <==> model_arr(json_model(*v)) is Some,
{
    v.as_array()
}

/// Relies on serde_json::Value::is_number and the Display rendering of a
/// JSON number: the literal text of a numeric value, kept as text so the
/// verified core never touches floating point.
#[verifier::external_body]
pub(crate) fn json_number_text(v: &serde_json::Value) -> (r: Option<String>)
    ensures
        r matches Some(t) ==> model_num_text(json_model(*v)) == Some(t@),
        r is Some <==> model_num_text(json_model(*v)) is Some,
{
    if v.is_number() {
        Some(v.to_string())
    } else {
        None
    }
}

} // verus!
