//! The response of the `add` endpoint.

use vstd::prelude::*;

use crate::error::Error;
use crate::json::{json_doc, json_model, JsonVal, parse_json};
use crate::json::json_is_object;
use crate::response::{get_opt_i64, get_opt_str, opt_i64_field, opt_str_field};

verus! {

/// What `add` answers: all fields are declared optional to tolerate
/// partial or degraded responses; a caller that needs the hash checks for
/// it and treats its absence as an error of its own.
#[derive(Debug)]
pub struct AddResponse {
    /// `Bytes`.
    pub bytes: Option<i64>,
    /// `Hash`: the CID of the added content.
    pub hash: Option<String>,
    /// `Name`.
    pub name: Option<String>,
    /// `Size`.
    pub size: Option<String>,
}

/// The mathematical value of an [`AddResponse`].
#[verifier::ext_equal]
pub struct AddResponseView {
    pub bytes: Option<int>,
    pub hash: Option<Seq<char>>,
    pub name: Option<Seq<char>>,
    pub size: Option<Seq<char>>,
}

impl View for AddResponse {
    type V = AddResponseView;

    open spec fn view(&self) -> AddResponseView {
        AddResponseView {
            bytes: match self.bytes {
                Some(n) => Some(n as int),
                None => None,
            },
            hash: match self.hash {
                Some(s) => Some(s@),
                None => None,
            },
            name: match self.name {
                Some(s) => Some(s@),
                None => None,
            },
            size: match self.size {
                Some(s) => Some(s@),
                None => None,
            },
        }
    }
}

/// What the `add` parser makes of a document with the given model: the
/// typed response when the document is an object whose known fields have
/// the right types, a shape error otherwise.
pub open spec fn add_response_of(j: JsonVal) -> Result<AddResponseView, ()> {
    if !(j is JObj) {
        Err(())
    } else {
        let m = j->JObj_0;
        match (
            opt_i64_field(m, "Bytes"@),
            opt_str_field(m, "Hash"@),
            opt_str_field(m, "Name"@),
            opt_str_field(m, "Size"@),
        ) {
            (Ok(bytes), Ok(hash), Ok(name), Ok(size)) => {
                let bytes_v = match bytes {
                    Some(n) => Some(n as int),
                    None => None,
                };
                Ok(AddResponseView { bytes: bytes_v, hash, name, size })
            },
            _ => Err(()),
        }
    }
}

impl AddResponse {
    /// Parses an `add` response body.
    ///
    /// Succeeds exactly when the body is valid JSON whose document is an
    /// object with well-typed known fields; every failure is
    /// [`Error::ResponseBodySerializeError`].
    pub fn parse(body: &str) -> (r: Result<AddResponse, Error>)
        ensures
            (r is Ok <==> (json_doc(body@) is Some && add_response_of(json_doc(body@)->0)
                is Ok)),
            r is Ok ==> r->Ok_0@ == add_response_of(json_doc(body@)->0)->Ok_0,
            r is Err ==> r->Err_0 == Error::ResponseBodySerializeError,
    {
        let v = match parse_json(body) {
            Some(v) => v,
            None => {
                return Err(Error::ResponseBodySerializeError);
            },
        };
        if !json_is_object(&v) {
            return Err(Error::ResponseBodySerializeError);
        }
        let bytes = match get_opt_i64(&v, "Bytes") {
            Ok(x) => x,
            Err(e) => {
                return Err(e);
            },
        };
        let hash = match get_opt_str(&v, "Hash") {
            Ok(x) => x,
            Err(e) => {
                return Err(e);
            },
        };
        let name = match get_opt_str(&v, "Name") {
            Ok(x) => x,
            Err(e) => {
                return Err(e);
            },
        };
        let size = match get_opt_str(&v, "Size") {
            Ok(x) => x,
            Err(e) => {
                return Err(e);
            },
        };
        let resp = AddResponse { bytes, hash, name, size };
        proof {
            assert(resp@ =~= add_response_of(json_doc(body@)->0)->Ok_0);
        }
        Ok(resp)
    }
}

} // verus!
