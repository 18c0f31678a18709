//! The `dag/put` request: store a JSON object as a DAG node.

use vstd::prelude::*;

use crate::encoding::{append_pair, bool_str, flag_pair, percent_encode, str_pair};
use crate::error::Error;
use crate::json::{json_text, json_model, json_to_text};
use crate::request::{MultipartBody, QueryParam, Request};

verus! {

/// The codec the stored object will be encoded with.
#[derive(Debug, Clone, Copy, PartialEq, Eq, Structural)]
pub enum StoreCodec {
    /// `dag-cbor`.
    DagCBOR,
}

impl StoreCodec {
    /// The codec's name on the wire.
    pub open spec fn spec_wire_name(self) -> Seq<char> {
        match self {
            StoreCodec::DagCBOR => "dag-cbor"@,
        }
    }

    /// Returns the codec's name on the wire.
    pub fn wire_name(&self) -> (r: &'static str)
        ensures
            r@ == self.spec_wire_name(),
    {
        match self {
            StoreCodec::DagCBOR => "dag-cbor",
        }
    }
}

/// The codec the input object is encoded in.
#[derive(Debug, Clone, Copy, PartialEq, Eq, Structural)]
pub enum InputCodec {
    /// `dag-json`.
    DagJSON,
}

impl InputCodec {
    /// The codec's name on the wire.
    pub open spec fn spec_wire_name(self) -> Seq<char> {
        match self {
            InputCodec::DagJSON => "dag-json"@,
        }
    }

    /// Returns the codec's name on the wire.
    pub fn wire_name(&self) -> (r: &'static str)
        ensures
            r@ == self.spec_wire_name(),
    {
        match self {
            InputCodec::DagJSON => "dag-json",
        }
    }
}

/// Query of `dag/put`.
#[derive(Debug, Default)]
pub struct PutQuery {
    /// Codec that the stored object will be encoded with. Default:
    /// `dag-cbor`.
    pub store_codec: Option<StoreCodec>,
    /// Codec that the input object is encoded in. Default: `dag-json`.
    pub input_codec: Option<InputCodec>,
    /// Pin this object when adding.
    pub pin: Option<bool>,
    /// Hash function to use.
    pub hash: Option<String>,
    /// Disable the block size check.
    pub allow_big_block: Option<bool>,
}

impl QueryParam for PutQuery {
    open spec fn query_pairs(&self) -> Seq<(Seq<char>, Seq<char>)> {
        let ps = Seq::<(Seq<char>, Seq<char>)>::empty();
        let ps = if self.store_codec is Some {
            ps.push(("store-codec"@, self.store_codec->0.spec_wire_name()))
        } else {
            ps
        };
        let ps = if self.input_codec is Some {
            ps.push(("input-codec"@, self.input_codec->0.spec_wire_name()))
        } else {
            ps
        };
        let ps = flag_pair(ps, "pin"@, self.pin);
        let ps = str_pair(ps, "hash"@, self.hash);
        let ps = flag_pair(ps, "allow-big-block"@, self.allow_big_block);
        ps
    }

    fn encode(&self) -> (r: String) {
        let mut out = String::new();
        let mut any = false;
        let ghost mut ps = Seq::<(Seq<char>, Seq<char>)>::empty();
        if let Some(c) = self.store_codec {
            append_pair(&mut out, &mut any, "store-codec", c.wire_name(), Ghost(ps));
        }
        proof {
            if self.store_codec is Some {
                ps = ps.push(("store-codec"@, self.store_codec->0.spec_wire_name()));
            }
        }
        if let Some(c) = self.input_codec {
            append_pair(&mut out, &mut any, "input-codec", c.wire_name(), Ghost(ps));
        }
        proof {
            if self.input_codec is Some {
                ps = ps.push(("input-codec"@, self.input_codec->0.spec_wire_name()));
            }
        }
        if let Some(b) = self.pin {
            append_pair(&mut out, &mut any, "pin", bool_str(b), Ghost(ps));
        }
        proof {
            ps = flag_pair(ps, "pin"@, self.pin);
        }
        if let Some(h) = &self.hash {
            let v = percent_encode(h.as_str());
            append_pair(&mut out, &mut any, "hash", v.as_str(), Ghost(ps));
        }
        proof {
            ps = str_pair(ps, "hash"@, self.hash);
        }
        if let Some(b) = self.allow_big_block {
            append_pair(&mut out, &mut any, "allow-big-block", bool_str(b), Ghost(ps));
        }
        proof {
            ps = flag_pair(ps, "allow-big-block"@, self.allow_big_block);
        }
        proof {
            assert(ps == self.query_pairs());
        }
        out
    }
}

/// A `dag/put` request: the query plus the JSON object to store.
pub struct PutRequest {
    pub query: PutQuery,
    /// The object sent as the request's single text part.
    pub object_data: serde_json::Value,
}

impl Request for PutRequest {
    open spec fn spec_path(&self) -> Seq<char> {
        "dag/put"@
    }

    fn path(&self) -> (r: String) {
        "dag/put".to_owned()
    }
}

impl PutRequest {
    /// Describes the multipart body of this request: exactly one text part
    /// named `object data` carrying the serialized JSON object.
    ///
    /// Building always succeeds, because serializing a JSON value cannot
    /// fail; the [`Error::SerializeObject`] arm below only maps the
    /// boundary's error kind, and is never reached.
    pub fn form(&self) -> (r: Result<MultipartBody, Error>)
        ensures
            r is Ok,
            (r->Ok_0 matches MultipartBody::TextPart { name, text } && name@ == "object data"@
                && text@ == json_text(json_model(self.object_data))),
    {
        match json_to_text(&self.object_data) {
            Some(text) => Ok(MultipartBody::TextPart { name: "object data".to_owned(), text }),
            None => Err(Error::SerializeObject),
        }
    }
}

} // verus!
