//! The boundary to `serde_json`.
//!
//! Response bodies are parsed by `serde_json` into a `serde_json::Value`,
//! which is opaque here.  What the contracts speak of is the value's
//! mathematical model, a [`JsonVal`], named by [`json_model`]; the outcome
//! of parsing a text is named by [`json_doc`].  The accessors below each
//! wrap one `serde_json::Value` method and state, over those names, what
//! that method returns.

use vstd::prelude::*;

verus! {

/// The mathematical model of a JSON document.
///
/// Numbers keep the distinction `serde_json` makes between values stored as
/// integers and values stored as floating point: `Int` holds the integer
/// value, `Float` holds the bit pattern of the stored `f64` (its numeric
/// reading never matters to this crate).
pub enum JsonVal {
    /// `null`.
    JNull,
    /// A boolean.
    JBool(bool),
    /// A number stored as an integer.
    JInt(int),
    /// A number stored as floating point, by its bit pattern.
    JFloat(int),
    /// A string.
    JStr(Seq<char>),
    /// An array.
    JArr(Seq<JsonVal>),
    /// An object: a map from field name to field value.
    JObj(Map<Seq<char>, JsonVal>),
}

#[verifier::external_type_specification]
#[verifier::external_body]
pub struct ExJsonValue(serde_json::Value);

/// The model of a parsed JSON value.
pub uninterp spec fn json_model(v: serde_json::Value) -> JsonVal;

/// What `serde_json::from_str::<serde_json::Value>` makes of a text: the
/// model of the parsed document when the text is valid JSON (within the
/// parser's nesting limit), nothing otherwise.
pub uninterp spec fn json_doc(s: Seq<char>) -> Option<JsonVal>;

/// What `serde_json::to_string` writes for a value with the given model.
pub uninterp spec fn json_text(j: JsonVal) -> Seq<char>;

/// Relies on `serde_json::from_str::<serde_json::Value>`: it succeeds
/// exactly on valid JSON texts, and the parsed value depends on the text
/// alone.
#[verifier::external_body]
pub fn parse_json(s: &str) -> (r: Option<serde_json::Value>)
    ensures
        r is Some <==> json_doc(s@) is Some,
        r is Some ==> json_model(r->0) == json_doc(s@)->0,
{
    serde_json::from_str::<serde_json::Value>(s).ok()
}

/// Relies on `serde_json::to_string`: on a `serde_json::Value` it always
/// succeeds (object keys are strings, numbers are finite, and the writer
/// is an in-memory buffer), and the written text depends on the serialized
/// value alone (object fields are kept sorted by key, so the model
/// determines the text).
#[verifier::external_body]
pub fn json_to_text(v: &serde_json::Value) -> (r: Option<String>)
    ensures
        r is Some,
        r is Some ==> r->0@ == json_text(json_model(*v)),
{
    serde_json::to_string(v).ok()
}

/// Relies on `serde_json::Value::get` with a string index: on an object it
/// looks the key up, on anything else it returns nothing.
#[verifier::external_body]
pub fn json_get<'a>(v: &'a serde_json::Value, key: &str) -> (r: Option<&'a serde_json::Value>)
    ensures
        r is Some <==> (json_model(*v) is JObj && json_model(*v)->JObj_0.contains_key(key@)),
        r is Some ==> json_model(*r->0) == json_model(*v)->JObj_0[key@],
{
    v.get(key)
}

/// Relies on `serde_json::Value::as_str`: it returns the string of a
/// `Value::String` and nothing otherwise.
#[verifier::external_body]
pub fn json_as_str(v: &serde_json::Value) -> (r: Option<String>)
    ensures
        r is Some <==> json_model(*v) is JStr,
        r is Some ==> r->0@ == json_model(*v)->JStr_0,
{
    v.as_str().map(|s| s.to_owned())
}

/// Relies on `serde_json::Value::as_bool`: it returns the boolean of a
/// `Value::Bool` and nothing otherwise.
#[verifier::external_body]
pub fn json_as_bool(v: &serde_json::Value) -> (r: Option<bool>)
    ensures
        r is Some <==> json_model(*v) is JBool,
        r is Some ==> r->0 == json_model(*v)->JBool_0,
{
    v.as_bool()
}

/// Relies on `serde_json::Value::as_u64`: it returns the value of a number
/// stored as an integer when that value is unsigned, and nothing otherwise.
#[verifier::external_body]
pub fn json_as_u64(v: &serde_json::Value) -> (r: Option<u64>)
    ensures
        r is Some <==> (json_model(*v) is JInt && 0 <= json_model(*v)->JInt_0 <= u64::MAX),
        r is Some ==> r->0 == json_model(*v)->JInt_0,
{
    v.as_u64()
}

/// Relies on `serde_json::Value::as_i64`: it returns the value of a number
/// stored as an integer when that value fits in an `i64`, and nothing
/// otherwise.
#[verifier::external_body]
pub fn json_as_i64(v: &serde_json::Value) -> (r: Option<i64>)
    ensures
        r is Some <==> (json_model(*v) is JInt && i64::MIN <= json_model(*v)->JInt_0 <= i64::MAX),
        r is Some ==> r->0 == json_model(*v)->JInt_0,
{
    v.as_i64()
}

/// Relies on `serde_json::Value::as_array`: it returns the elements of a
/// `Value::Array`, in order, and nothing otherwise.
#[verifier::external_body]
pub fn json_as_array(v: &serde_json::Value) -> (r: Option<Vec<serde_json::Value>>)
    ensures
        r is Some <==> json_model(*v) is JArr,
        r is Some ==> r->0@.len() == json_model(*v)->JArr_0.len(),
        (r is Some ==> forall|i: int|
            0 <= i < r->0@.len() ==> json_model(#[trigger] r->0@[i]) == json_model(
                *v,
            )->JArr_0[i]),
{
    v.as_array().cloned()
}

/// Relies on `serde_json::Value::is_object`: it tells a `Value::Object`
/// from every other value.
#[verifier::external_body]
pub fn json_is_object(v: &serde_json::Value) -> (r: bool)
    ensures
        r == json_model(*v) is JObj,
{
    v.is_object()
}

} // verus!
