//! The response of the `dag/put` endpoint.

use vstd::prelude::*;

use crate::error::Error;
use crate::json::{json_doc, json_get, json_model, json_is_object, JsonVal, parse_json};
use crate::response::req_str_field;

verus! {

/// The CID wrapper object `{ "/": <cid> }` that `dag/put` answers with.
#[derive(Debug)]
pub struct Cid {
    /// The CID text, stored under the key `/`.
    pub slash: String,
}

/// What `dag/put` answers: the CID of the stored node, under the key
/// `Cid`.
#[derive(Debug)]
pub struct PutResponse {
    pub cid: Cid,
}

/// What the `dag/put` parser makes of a document with the given model:
/// the CID text when the document is an object whose `Cid` field is an
/// object with a string under `/`, a shape error otherwise.
pub open spec fn put_response_of(j: JsonVal) -> Result<Seq<char>, ()> {
    if !(j is JObj) {
        Err(())
    } else {
        let m = j->JObj_0;
        if !m.contains_key("Cid"@) {
            Err(())
        } else if !(m["Cid"@] is JObj) {
            Err(())
        } else {
            req_str_field(m["Cid"@]->JObj_0, "/"@)
        }
    }
}

impl PutResponse {
    /// Parses a `dag/put` response body.
    ///
    /// Succeeds exactly when the body is valid JSON of the shape
    /// `{ "Cid": { "/": <string> } }`; every failure is
    /// [`Error::ResponseBodySerializeError`].
    pub fn parse(body: &str) -> (r: Result<PutResponse, Error>)
        ensures
            (r is Ok <==> (json_doc(body@) is Some && put_response_of(json_doc(body@)->0)
                is Ok)),
            r is Ok ==> r->Ok_0.cid.slash@ == put_response_of(json_doc(body@)->0)->Ok_0,
            r is Err ==> r->Err_0 == Error::ResponseBodySerializeError,
    {
        let v = match parse_json(body) {
            Some(v) => v,
            None => {
                return Err(Error::ResponseBodySerializeError);
            },
        };
        let cid_value = match json_get(&v, "Cid") {
            Some(c) => c,
            None => {
                return Err(Error::ResponseBodySerializeError);
            },
        };
        if !json_is_object(cid_value) {
            return Err(Error::ResponseBodySerializeError);
        }
        let slash = match crate::response::get_req_str(cid_value, "/") {
            Ok(s) => s,
            Err(e) => {
                return Err(e);
            },
        };
        Ok(PutResponse { cid: Cid { slash } })
    }
}

} // verus!
