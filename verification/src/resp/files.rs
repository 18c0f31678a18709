//! The responses of the MFS (`files/*`) endpoints.

use vstd::prelude::*;

use crate::error::Error;
use crate::json::{json_as_array, json_doc, json_is_object, json_model, parse_json, JsonVal};
use crate::response::{
    get_opt_bool, get_opt_i32, get_opt_str, get_opt_u64, get_req_str, opt_bool_field,
    opt_i32_field, opt_i64_field, opt_str_field, opt_u64_field, req_str_field,
};

verus! {

/// What `files/flush` answers: the CID of the flushed path.
#[derive(Debug)]
pub struct FlushResponse {
    /// `Cid`.
    pub cid: String,
}

/// What the `files/flush` parser makes of a document with the given model:
/// the CID text when the document is an object with a string under `Cid`,
/// a shape error otherwise.
pub open spec fn flush_response_of(j: JsonVal) -> Result<Seq<char>, ()> {
    if !(j is JObj) {
        Err(())
    } else {
        req_str_field(j->JObj_0, "Cid"@)
    }
}

impl FlushResponse {
    /// Parses a `files/flush` response body.
    ///
    /// Succeeds exactly when the body is valid JSON of the shape
    /// `{ "Cid": <string> }`; every failure is
    /// [`Error::ResponseBodySerializeError`].
    pub fn parse(body: &str) -> (r: Result<FlushResponse, Error>)
        ensures
            (r is Ok <==> (json_doc(body@) is Some && flush_response_of(json_doc(body@)->0)
                is Ok)),
            r is Ok ==> r->Ok_0.cid@ == flush_response_of(json_doc(body@)->0)->Ok_0,
            r is Err ==> r->Err_0 == Error::ResponseBodySerializeError,
    {
        let v = match parse_json(body) {
            Some(v) => v,
            None => {
                return Err(Error::ResponseBodySerializeError);
            },
        };
        if !json_is_object(&v) {
            return Err(Error::ResponseBodySerializeError);
        }
        let cid = match get_req_str(&v, "Cid") {
            Ok(s) => s,
            Err(e) => {
                return Err(e);
            },
        };
        Ok(FlushResponse { cid })
    }
}

/// What `files/stat` answers.  Every field is declared optional as a
/// deliberate defensive choice: the daemon is expected to send most of
/// them, but a partial response must not fail the parse.
#[derive(Debug)]
pub struct StatResponse {
    /// `Blocks`.
    pub blocks: Option<i32>,
    /// `CumulativeSize`.
    pub cumulative_size: Option<u64>,
    /// `Hash`.
    pub hash: Option<String>,
    /// `Local`.
    pub local: Option<bool>,
    /// `Size`.
    pub size: Option<u64>,
    /// `SizeLocal`.
    pub size_local: Option<u64>,
    /// `Type`.
    pub typ: Option<String>,
    /// `WithLocality`.
    pub with_locality: Option<bool>,
}

/// The mathematical value of a [`StatResponse`].
#[verifier::ext_equal]
pub struct StatResponseView {
    pub blocks: Option<int>,
    pub cumulative_size: Option<int>,
    pub hash: Option<Seq<char>>,
    pub local: Option<bool>,
    pub size: Option<int>,
    pub size_local: Option<int>,
    pub typ: Option<Seq<char>>,
    pub with_locality: Option<bool>,
}

impl View for StatResponse {
    type V = StatResponseView;

    open spec fn view(&self) -> StatResponseView {
        StatResponseView {
            blocks: match self.blocks {
                Some(n) => Some(n as int),
                None => None,
            },
            cumulative_size: match self.cumulative_size {
                Some(n) => Some(n as int),
                None => None,
            },
            hash: match self.hash {
                Some(s) => Some(s@),
                None => None,
            },
            local: self.local,
            size: match self.size {
                Some(n) => Some(n as int),
                None => None,
            },
            size_local: match self.size_local {
                Some(n) => Some(n as int),
                None => None,
            },
            typ: match self.typ {
                Some(s) => Some(s@),
                None => None,
            },
            with_locality: self.with_locality,
        }
    }
}

/// Lifts an optional machine integer to an optional mathematical one.
pub open spec fn opt_int_of_u64(v: Option<u64>) -> Option<int> {
    match v {
        Some(n) => Some(n as int),
        None => None,
    }
}

/// Lifts an optional machine integer to an optional mathematical one.
pub open spec fn opt_int_of_i32(v: Option<i32>) -> Option<int> {
    match v {
        Some(n) => Some(n as int),
        None => None,
    }
}

/// What the `files/stat` parser makes of a document with the given model.
pub open spec fn stat_response_of(j: JsonVal) -> Result<StatResponseView, ()> {
    if !(j is JObj) {
        Err(())
    } else {
        let m = j->JObj_0;
        match (
            opt_i32_field(m, "Blocks"@),
            opt_u64_field(m, "CumulativeSize"@),
            opt_str_field(m, "Hash"@),
            opt_bool_field(m, "Local"@),
            opt_u64_field(m, "Size"@),
            opt_u64_field(m, "SizeLocal"@),
            opt_str_field(m, "Type"@),
            opt_bool_field(m, "WithLocality"@),
        ) {
            (
                Ok(blocks),
                Ok(cumulative_size),
                Ok(hash),
                Ok(local),
                Ok(size),
                Ok(size_local),
                Ok(typ),
                Ok(with_locality),
            ) => Ok(
                StatResponseView {
                    blocks: opt_int_of_i32(blocks),
                    cumulative_size: opt_int_of_u64(cumulative_size),
                    hash,
                    local,
                    size: opt_int_of_u64(size),
                    size_local: opt_int_of_u64(size_local),
                    typ,
                    with_locality,
                },
            ),
            _ => Err(()),
        }
    }
}

impl StatResponse {
    /// Parses a `files/stat` response body.
    ///
    /// Succeeds exactly when the body is valid JSON whose document is an
    /// object with well-typed known fields; every failure is
    /// [`Error::ResponseBodySerializeError`].
    pub fn parse(body: &str) -> (r: Result<StatResponse, Error>)
        ensures
            (r is Ok <==> (json_doc(body@) is Some && stat_response_of(json_doc(body@)->0)
                is Ok)),
            r is Ok ==> r->Ok_0@ == stat_response_of(json_doc(body@)->0)->Ok_0,
            r is Err ==> r->Err_0 == Error::ResponseBodySerializeError,
    {
        let v = match parse_json(body) {
            Some(v) => v,
            None => {
                return Err(Error::ResponseBodySerializeError);
            },
        };
        if !json_is_object(&v) {
            return Err(Error::ResponseBodySerializeError);
        }
        let blocks = match get_opt_i32(&v, "Blocks") {
            Ok(x) => x,
            Err(e) => {
                return Err(e);
            },
        };
        let cumulative_size = match get_opt_u64(&v, "CumulativeSize") {
            Ok(x) => x,
            Err(e) => {
                return Err(e);
            },
        };
        let hash = match get_opt_str(&v, "Hash") {
            Ok(x) => x,
            Err(e) => {
                return Err(e);
            },
        };
        let local = match get_opt_bool(&v, "Local") {
            Ok(x) => x,
            Err(e) => {
                return Err(e);
            },
        };
        let size = match get_opt_u64(&v, "Size") {
            Ok(x) => x,
            Err(e) => {
                return Err(e);
            },
        };
        let size_local = match get_opt_u64(&v, "SizeLocal") {
            Ok(x) => x,
            Err(e) => {
                return Err(e);
            },
        };
        let typ = match get_opt_str(&v, "Type") {
            Ok(x) => x,
            Err(e) => {
                return Err(e);
            },
        };
        let with_locality = match get_opt_bool(&v, "WithLocality") {
            Ok(x) => x,
            Err(e) => {
                return Err(e);
            },
        };
        let resp = StatResponse {
            blocks,
            cumulative_size,
            hash,
            local,
            size,
            size_local,
            typ,
            with_locality,
        };
        proof {
            assert(resp@ =~= stat_response_of(json_doc(body@)->0)->Ok_0);
        }
        Ok(resp)
    }
}

/// One entry of a `files/ls` listing.
#[derive(Debug)]
pub struct LsObject {
    /// `Hash`.
    pub hash: String,
    /// `Name`.
    pub name: String,
    /// `Size`.
    pub size: i64,
    /// `Type`.
    pub typ: i32,
}

/// The mathematical value of an [`LsObject`].
#[verifier::ext_equal]
pub struct LsObjectView {
    pub hash: Seq<char>,
    pub name: Seq<char>,
    pub size: int,
    pub typ: int,
}

impl View for LsObject {
    type V = LsObjectView;

    open spec fn view(&self) -> LsObjectView {
        LsObjectView {
            hash: self.hash@,
            name: self.name@,
            size: self.size as int,
            typ: self.typ as int,
        }
    }
}

/// What `files/ls` answers: the entries of the listed directory.
#[derive(Debug)]
pub struct LsResponse {
    /// `Entries`.
    pub entries: Vec<LsObject>,
}

/// What one listing entry parses to: every field is required here.
pub open spec fn ls_object_of(j: JsonVal) -> Result<LsObjectView, ()> {
    if !(j is JObj) {
        Err(())
    } else {
        let m = j->JObj_0;
        match (
            req_str_field(m, "Hash"@),
            req_str_field(m, "Name"@),
            opt_i64_field(m, "Size"@),
            opt_i32_field(m, "Type"@),
        ) {
            (Ok(hash), Ok(name), Ok(Some(size)), Ok(Some(typ))) => Ok(
                LsObjectView { hash, name, size: size as int, typ: typ as int },
            ),
            _ => Err(()),
        }
    }
}

/// What a sequence of listing entries parses to: the entries in order, or
/// a shape error as soon as one of them is malformed.
pub open spec fn ls_objects_of(a: Seq<JsonVal>) -> Result<Seq<LsObjectView>, ()>
    decreases a.len(),
{
    if a.len() == 0 {
        Ok(Seq::empty())
    } else {
        match (ls_objects_of(a.drop_last()), ls_object_of(a.last())) {
            (Ok(s), Ok(o)) => Ok(s.push(o)),
            _ => Err(()),
        }
    }
}

/// What the `files/ls` parser makes of a document with the given model:
/// the entries under `Entries` when the document is an object holding an
/// array of well-formed entries.
pub open spec fn ls_response_of(j: JsonVal) -> Result<Seq<LsObjectView>, ()> {
    if !(j is JObj) {
        Err(())
    } else {
        let m = j->JObj_0;
        if !m.contains_key("Entries"@) {
            Err(())
        } else if !(m["Entries"@] is JArr) {
            Err(())
        } else {
            ls_objects_of(m["Entries"@]->JArr_0)
        }
    }
}

/// Parses one listing entry.
fn parse_ls_object(v: &serde_json::Value) -> (r: Result<LsObject, Error>)
    ensures
        r is Ok <==> ls_object_of(json_model(*v)) is Ok,
        r is Ok ==> r->Ok_0@ == ls_object_of(json_model(*v))->Ok_0,
        r is Err ==> r->Err_0 == Error::ResponseBodySerializeError,
{
    if !json_is_object(v) {
        return Err(Error::ResponseBodySerializeError);
    }
    let hash = match get_req_str(v, "Hash") {
        Ok(s) => s,
        Err(e) => {
            return Err(e);
        },
    };
    let name = match get_req_str(v, "Name") {
        Ok(s) => s,
        Err(e) => {
            return Err(e);
        },
    };
    let size = match crate::response::get_opt_i64(v, "Size") {
        Ok(Some(n)) => n,
        Ok(None) => {
            return Err(Error::ResponseBodySerializeError);
        },
        Err(e) => {
            return Err(e);
        },
    };
    let typ = match get_opt_i32(v, "Type") {
        Ok(Some(n)) => n,
        Ok(None) => {
            return Err(Error::ResponseBodySerializeError);
        },
        Err(e) => {
            return Err(e);
        },
    };
    let o = LsObject { hash, name, size, typ };
    proof {
        assert(o@ =~= ls_object_of(json_model(*v))->Ok_0);
    }
    Ok(o)
}

impl LsResponse {
    /// Parses a `files/ls` response body.
    ///
    /// Succeeds exactly when the body is valid JSON of the shape
    /// `{ "Entries": [ ... ] }` with well-formed entries; every failure is
    /// [`Error::ResponseBodySerializeError`].
    #[verifier::loop_isolation(false)]
    pub fn parse(body: &str) -> (r: Result<LsResponse, Error>)
        ensures
            (r is Ok <==> (json_doc(body@) is Some && ls_response_of(json_doc(body@)->0)
                is Ok)),
            (r is Ok ==> r->Ok_0.entries@.map_values(|o: LsObject| o@) == ls_response_of(
                json_doc(body@)->0,
            )->Ok_0),
            r is Err ==> r->Err_0 == Error::ResponseBodySerializeError,
    {
        let v = match parse_json(body) {
            Some(v) => v,
            None => {
                return Err(Error::ResponseBodySerializeError);
            },
        };
        let entries_value = match crate::json::json_get(&v, "Entries") {
            Some(e) => e,
            None => {
                return Err(Error::ResponseBodySerializeError);
            },
        };
        let items = match json_as_array(entries_value) {
            Some(a) => a,
            None => {
                return Err(Error::ResponseBodySerializeError);
            },
        };
        let ghost models = json_model(*entries_value)->JArr_0;
        let mut entries: Vec<LsObject> = Vec::new();
        let n = items.len();
        let mut i: usize = 0;
        while i < n
            invariant
                i <= n,
                n == items@.len(),
                n == models.len(),
                forall|k: int|
                    0 <= k < n ==> json_model(#[trigger] items@[k]) == models[k],
                ls_objects_of(models.take(i as int)) is Ok,
                entries@.map_values(|o: LsObject| o@) == ls_objects_of(
                    models.take(i as int),
                )->Ok_0,
            decreases n - i,
        {
            let o = match parse_ls_object(&items[i]) {
                Ok(o) => o,
                Err(e) => {
                    proof {
                        lemma_ls_objects_of_prefix_err(models, i as int);
                    }
                    return Err(e);
                },
            };
            entries.push(o);
            proof {
                assert(models.take(i + 1).drop_last() =~= models.take(i as int));
                assert(models.take(i + 1).last() == models[i as int]);
                assert(entries@.map_values(|o: LsObject| o@) =~= ls_objects_of(
                    models.take(i + 1),
                )->Ok_0);
            }
            i = i + 1;
        }
        proof {
            assert(models.take(n as int) =~= models);
        }
        Ok(LsResponse { entries })
    }
}

/// A malformed entry makes the whole listing malformed: when the entry at
/// `i` is a shape error, so is the sequence.
proof fn lemma_ls_objects_of_prefix_err(a: Seq<JsonVal>, i: int)
    requires
        0 <= i < a.len(),
        ls_object_of(a[i]) is Err,
    ensures
        ls_objects_of(a) is Err,
    decreases a.len(),
{
    if a.len() > 0 {
        if i == a.len() - 1 {
            assert(a.last() == a[i]);
        } else {
            assert(a.drop_last()[i] == a[i]);
            lemma_ls_objects_of_prefix_err(a.drop_last(), i);
        }
    }
}

} // verus!
