//! Request-side building blocks: query encoding traits, URL composition and
//! multipart payload descriptions.

use vstd::prelude::*;

use crate::encoding::join_pairs;
use crate::error::Error;
use crate::urlutil::{parse_url, url_parse, url_str, url_to_string};

verus! {

/// A typed set of query parameters that renders itself as a query string.
///
/// Every implementation spells out its field table: the canonical wire name
/// of each field and the rendering of its value, in declaration order, unset
/// fields omitted.
pub trait QueryParam {
    /// The rendered `name=value` pairs of the set fields, in declaration
    /// order.
    spec fn query_pairs(&self) -> Seq<(Seq<char>, Seq<char>)>;

    /// The full encoded query string: the pairs joined with `&`.
    open spec fn encoding(&self) -> Seq<char> {
        join_pairs(self.query_pairs())
    }

    /// Encodes the set fields as a query string.
    fn encode(&self) -> (r: String)
        ensures
            r@ == self.encoding(),
    ;
}

/// A request that knows the path of the endpoint it addresses.
pub trait Request {
    /// The endpoint's path segment.
    spec fn spec_path(&self) -> Seq<char>;

    /// Returns the endpoint's path segment.
    fn path(&self) -> (r: String)
        ensures
            r@ == self.spec_path(),
    ;
}

/// The single part of a `multipart/form-data` body.
///
/// Every payload-bearing endpoint in the catalog sends exactly one part:
/// either raw file bytes under a part name and filename, or a text blob
/// under a part name.
#[derive(Debug)]
pub enum MultipartBody {
    /// Raw bytes with a filename, as the `add` and `files/write` endpoints
    /// send them.
    FilePart { name: String, filename: String, bytes: Vec<u8> },
    /// A UTF-8 text blob, as the `dag/put` endpoint sends its JSON object.
    TextPart { name: String, text: String },
}

/// The URL text composed from a base endpoint, a path and an encoded query:
/// `<base>/<path>?<query>`.
pub open spec fn compose_url(base: Seq<char>, path: Seq<char>, query: Seq<char>) -> Seq<char> {
    base + "/"@ + path + "?"@ + query
}

/// The target of one request: a base endpoint, an endpoint path, and the
/// query parameters to encode.
pub struct RequestUrl<'a, Q: QueryParam> {
    pub base: &'a url::Url,
    pub path: &'a str,
    pub query: &'a Q,
}

impl<'a, Q: QueryParam> RequestUrl<'a, Q> {
    /// Bundles a base endpoint, a path and query parameters.
    pub fn new(base: &'a url::Url, path: &'a str, query: &'a Q) -> (r: Self)
        ensures
            r.base == base,
            r.path == path,
            r.query == query,
    {
        RequestUrl { base, path, query }
    }

    /// The URL text this target composes to, before validation.
    pub open spec fn composed(self) -> Seq<char> {
        compose_url(url_str(*self.base), self.path@, self.query.encoding())
    }

    /// Composes and validates the target URL.
    ///
    /// The composition is deterministic: the text is always
    /// `<base>/<path>?<encoded query>`.  Validation fails with
    /// [`Error::UrlParse`] exactly when that text is not a valid absolute
    /// URL.
    pub fn url(&self) -> (r: Result<url::Url, Error>)
        ensures
            r is Ok <==> url_parse(self.composed()) is Some,
            r is Ok ==> url_str(r->Ok_0) == url_parse(self.composed())->0,
            r is Err ==> r->Err_0 == Error::UrlParse,
    {
        let mut s = url_to_string(self.base);
        s.append("/");
        s.append(self.path);
        s.append("?");
        let q = self.query.encode();
        s.append(q.as_str());
        match parse_url(s.as_str()) {
            Ok(u) => Ok(u),
            Err(_) => Err(Error::UrlParse),
        }
    }

    /// Composes and validates the target URL, returned as text.
    pub fn plain_url(&self) -> (r: Result<String, Error>)
        ensures
            r is Ok <==> url_parse(self.composed()) is Some,
            r is Ok ==> r->Ok_0@ == url_parse(self.composed())->0,
            r is Err ==> r->Err_0 == Error::UrlParse,
    {
        match self.url() {
            Ok(u) => Ok(url_to_string(&u)),
            Err(e) => Err(e),
        }
    }
}

} // verus!
