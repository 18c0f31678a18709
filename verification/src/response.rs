//! Response-side building blocks: typed field extraction from a parsed JSON
//! object, and the empty-response mode.
//!
//! Every response parser in this crate follows the same two steps: the body
//! text is parsed into a JSON value, and the value's top-level object is
//! projected onto the response type's fields.  A missing optional field is
//! simply unset; a field present with the wrong type, a non-object document
//! and a malformed body are all reported as
//! [`Error::ResponseBodySerializeError`].

use vstd::prelude::*;

use crate::error::Error;
use crate::json::{
    json_as_bool, json_as_i64, json_as_str, json_as_u64, json_get, json_model, JsonVal,
};

verus! {

/// An optional string field of a response object: unset when absent, its
/// text when present as a string, a shape error otherwise.
pub open spec fn opt_str_field(m: Map<Seq<char>, JsonVal>, key: Seq<char>) -> Result<
    Option<Seq<char>>,
    (),
> {
    if !m.contains_key(key) {
        Ok(None)
    } else if m[key] is JStr {
        Ok(Some(m[key]->JStr_0))
    } else {
        Err(())
    }
}

/// An optional boolean field of a response object.
pub open spec fn opt_bool_field(m: Map<Seq<char>, JsonVal>, key: Seq<char>) -> Result<
    Option<bool>,
    (),
> {
    if !m.contains_key(key) {
        Ok(None)
    } else if m[key] is JBool {
        Ok(Some(m[key]->JBool_0))
    } else {
        Err(())
    }
}

/// An optional unsigned 64-bit field of a response object: a shape error
/// when the number is not stored as an integer or does not fit.
pub open spec fn opt_u64_field(m: Map<Seq<char>, JsonVal>, key: Seq<char>) -> Result<
    Option<u64>,
    (),
> {
    if !m.contains_key(key) {
        Ok(None)
    } else if m[key] is JInt && 0 <= m[key]->JInt_0 <= u64::MAX {
        Ok(Some(m[key]->JInt_0 as u64))
    } else {
        Err(())
    }
}

/// An optional signed 64-bit field of a response object.
pub open spec fn opt_i64_field(m: Map<Seq<char>, JsonVal>, key: Seq<char>) -> Result<
    Option<i64>,
    (),
> {
    if !m.contains_key(key) {
        Ok(None)
    } else if m[key] is JInt && i64::MIN <= m[key]->JInt_0 <= i64::MAX {
        Ok(Some(m[key]->JInt_0 as i64))
    } else {
        Err(())
    }
}

/// An optional signed 32-bit field of a response object.
pub open spec fn opt_i32_field(m: Map<Seq<char>, JsonVal>, key: Seq<char>) -> Result<
    Option<i32>,
    (),
> {
    if !m.contains_key(key) {
        Ok(None)
    } else if m[key] is JInt && i32::MIN <= m[key]->JInt_0 <= i32::MAX {
        Ok(Some(m[key]->JInt_0 as i32))
    } else {
        Err(())
    }
}

/// A required string field of a response object: a shape error when absent
/// or not a string.
pub open spec fn req_str_field(m: Map<Seq<char>, JsonVal>, key: Seq<char>) -> Result<
    Seq<char>,
    (),
> {
    if m.contains_key(key) && m[key] is JStr {
        Ok(m[key]->JStr_0)
    } else {
        Err(())
    }
}

/// Projects an optional string field out of a response object.
pub fn get_opt_str(v: &serde_json::Value, key: &str) -> (r: Result<Option<String>, Error>)
    requires
        json_model(*v) is JObj,
    ensures
        r is Ok <==> opt_str_field(json_model(*v)->JObj_0, key@) is Ok,
        r is Err ==> r->Err_0 == Error::ResponseBodySerializeError,
        (r is Ok ==> match (r->Ok_0, opt_str_field(json_model(*v)->JObj_0, key@)->Ok_0) {
            (Some(s), Some(t)) => s@ == t,
            (None, None) => true,
            _ => false,
        }),
{
    match json_get(v, key) {
        None => Ok(None),
        Some(f) => match json_as_str(f) {
            Some(s) => Ok(Some(s)),
            None => Err(Error::ResponseBodySerializeError),
        },
    }
}

/// Projects an optional boolean field out of a response object.
pub fn get_opt_bool(v: &serde_json::Value, key: &str) -> (r: Result<Option<bool>, Error>)
    requires
        json_model(*v) is JObj,
    ensures
        r is Ok <==> opt_bool_field(json_model(*v)->JObj_0, key@) is Ok,
        r is Err ==> r->Err_0 == Error::ResponseBodySerializeError,
        r is Ok ==> r->Ok_0 == opt_bool_field(json_model(*v)->JObj_0, key@)->Ok_0,
{
    match json_get(v, key) {
        None => Ok(None),
        Some(f) => match json_as_bool(f) {
            Some(b) => Ok(Some(b)),
            None => Err(Error::ResponseBodySerializeError),
        },
    }
}

/// Projects an optional unsigned 64-bit field out of a response object.
pub fn get_opt_u64(v: &serde_json::Value, key: &str) -> (r: Result<Option<u64>, Error>)
    requires
        json_model(*v) is JObj,
    ensures
        r is Ok <==> opt_u64_field(json_model(*v)->JObj_0, key@) is Ok,
        r is Err ==> r->Err_0 == Error::ResponseBodySerializeError,
        r is Ok ==> r->Ok_0 == opt_u64_field(json_model(*v)->JObj_0, key@)->Ok_0,
{
    match json_get(v, key) {
        None => Ok(None),
        Some(f) => match json_as_u64(f) {
            Some(n) => Ok(Some(n)),
            None => Err(Error::ResponseBodySerializeError),
        },
    }
}

/// Projects an optional signed 64-bit field out of a response object.
pub fn get_opt_i64(v: &serde_json::Value, key: &str) -> (r: Result<Option<i64>, Error>)
    requires
        json_model(*v) is JObj,
    ensures
        r is Ok <==> opt_i64_field(json_model(*v)->JObj_0, key@) is Ok,
        r is Err ==> r->Err_0 == Error::ResponseBodySerializeError,
        r is Ok ==> r->Ok_0 == opt_i64_field(json_model(*v)->JObj_0, key@)->Ok_0,
{
    match json_get(v, key) {
        None => Ok(None),
        Some(f) => match json_as_i64(f) {
            Some(n) => Ok(Some(n)),
            None => Err(Error::ResponseBodySerializeError),
        },
    }
}

/// Projects an optional signed 32-bit field out of a response object.
pub fn get_opt_i32(v: &serde_json::Value, key: &str) -> (r: Result<Option<i32>, Error>)
    requires
        json_model(*v) is JObj,
    ensures
        r is Ok <==> opt_i32_field(json_model(*v)->JObj_0, key@) is Ok,
        r is Err ==> r->Err_0 == Error::ResponseBodySerializeError,
        r is Ok ==> r->Ok_0 == opt_i32_field(json_model(*v)->JObj_0, key@)->Ok_0,
{
    match json_get(v, key) {
        None => Ok(None),
        Some(f) => match json_as_i64(f) {
            Some(n) => {
                if n >= i32::MIN as i64 && n <= i32::MAX as i64 {
                    Ok(Some(n as i32))
                } else {
                    Err(Error::ResponseBodySerializeError)
                }
            },
            None => Err(Error::ResponseBodySerializeError),
        },
    }
}

/// Projects a required string field out of a response object.
pub fn get_req_str(v: &serde_json::Value, key: &str) -> (r: Result<String, Error>)
    requires
        json_model(*v) is JObj,
    ensures
        r is Ok <==> req_str_field(json_model(*v)->JObj_0, key@) is Ok,
        r is Err ==> r->Err_0 == Error::ResponseBodySerializeError,
        r is Ok ==> r->Ok_0@ == req_str_field(json_model(*v)->JObj_0, key@)->Ok_0,
{
    match json_get(v, key) {
        None => Err(Error::ResponseBodySerializeError),
        Some(f) => match json_as_str(f) {
            Some(s) => Ok(s),
            None => Err(Error::ResponseBodySerializeError),
        },
    }
}

/// The response of an endpoint whose body carries no structured payload.
///
/// The caller drains the body to keep the connection reusable, then parses
/// it in empty mode, which discards the content.
#[derive(Debug, Clone, Copy, PartialEq, Eq, Structural)]
pub struct EmptyResponse;

impl EmptyResponse {
    /// Parses a body in empty mode: every body parses successfully, and
    /// nothing of it is retained — the result is the same whatever the body
    /// held.
    pub fn parse(body: &str) -> (r: Result<EmptyResponse, Error>)
        ensures
            r == Ok::<EmptyResponse, Error>(EmptyResponse),
    {
        let _ = body;
        Ok(EmptyResponse)
    }
}

} // verus!
