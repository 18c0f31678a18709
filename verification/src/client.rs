//! Per-endpoint request preparation and transport-outcome classification.
//!
//! A caller performs one request in three steps: it prepares the request
//! here (target URL plus optional multipart body), performs the HTTP POST
//! itself, and hands the outcome back to [`classify_send_outcome`] and the
//! response parsers.  Everything but the POST is verified.

use vstd::prelude::*;

use crate::error::Error;
use crate::req::add::AddRequest;
use crate::req::dag::PutRequest;
use crate::req::files::{FlushRequest, MkdirRequest, StatRequest, WriteRequest};
use crate::request::{compose_url, MultipartBody, QueryParam, RequestUrl};
use crate::json::{json_model, json_text};
use crate::urlutil::{url_parse, url_str};

verus! {

/// One request, ready to be performed: the validated target URL and the
/// multipart body, when the endpoint carries one.
#[derive(Debug)]
pub struct PreparedRequest {
    pub url: url::Url,
    pub body: Option<MultipartBody>,
}

/// The URL text a request against the given endpoint composes to.
pub open spec fn target_text(base: url::Url, path: Seq<char>, query: Seq<char>) -> Seq<char> {
    compose_url(url_str(base), path, query)
}

/// How the outcome of the HTTP POST is classified.
///
/// `status` is the response status when the transport delivered one, and
/// nothing when the request failed below HTTP (connection, timeout, TLS).
/// The two failure modes stay distinct: no answer is
/// [`Error::RequestError`], a non-success status is
/// [`Error::RequestFailed`].
pub open spec fn send_outcome(status: Option<u16>) -> Result<u16, Error> {
    match status {
        None => Err(Error::RequestError),
        Some(s) => if 200 <= s <= 299 {
            Ok(s)
        } else {
            Err(Error::RequestFailed)
        },
    }
}

/// Classifies the outcome of the HTTP POST, per [`send_outcome`].
pub fn classify_send_outcome(status: Option<u16>) -> (r: Result<u16, Error>)
    ensures
        r == send_outcome(status),
        (r is Ok <==> (status is Some && 200 <= status->0 <= 299)),
        status is None ==> r == Err::<u16, Error>(Error::RequestError),
        (status is Some && !(200 <= status->0 <= 299)) ==> r == Err::<u16, Error>(
            Error::RequestFailed,
        ),
        r is Ok ==> r->Ok_0 == status->0,
{
    match status {
        None => Err(Error::RequestError),
        Some(s) => {
            if 200 <= s && s <= 299 {
                Ok(s)
            } else {
                Err(Error::RequestFailed)
            }
        },
    }
}

/// Prepares an `add` request: the target URL and the required file part.
pub fn prepare_add(base: &url::Url, req: &AddRequest) -> (r: Result<PreparedRequest, Error>)
    ensures
        (r is Ok <==> (url_parse(target_text(*base, "add"@, req.query.encoding())) is Some
            && req.bytes is Some && req.filename is Some)),
        url_parse(target_text(*base, "add"@, req.query.encoding())) is None ==> r
            == Err::<PreparedRequest, Error>(Error::UrlParse),
        (r is Ok ==> url_str(r->Ok_0.url) == url_parse(
            target_text(*base, "add"@, req.query.encoding()),
        )->0),
        (r is Ok ==> (r->Ok_0.body matches Some(
            MultipartBody::FilePart { name, filename, bytes },
        ) && name@ == "file"@ && filename@ == req.filename->0@ && bytes@ == req.bytes->0@)),
        (url_parse(target_text(*base, "add"@, req.query.encoding())) is Some && req.bytes
            is None) ==> r == Err::<PreparedRequest, Error>(Error::NoFileBytes),
        (url_parse(target_text(*base, "add"@, req.query.encoding())) is Some && req.bytes
            is Some && req.filename is None) ==> r == Err::<PreparedRequest, Error>(
            Error::NoFilename,
        ),
{
    let ru = RequestUrl::new(base, "add", &req.query);
    let url = match ru.url() {
        Ok(u) => u,
        Err(e) => {
            return Err(e);
        },
    };
    let body = match req.form() {
        Ok(b) => b,
        Err(e) => {
            return Err(e);
        },
    };
    Ok(PreparedRequest { url, body: Some(body) })
}

/// Prepares a `files/mkdir` request: the target URL, no body.
pub fn prepare_files_mkdir(base: &url::Url, req: &MkdirRequest) -> (r: Result<
    PreparedRequest,
    Error,
>)
    ensures
        (r is Ok <==> url_parse(target_text(*base, "files/mkdir"@, req.query.encoding()))
            is Some),
        r is Err ==> r->Err_0 == Error::UrlParse,
        (r is Ok ==> url_str(r->Ok_0.url) == url_parse(
            target_text(*base, "files/mkdir"@, req.query.encoding()),
        )->0),
        r is Ok ==> r->Ok_0.body is None,
{
    let ru = RequestUrl::new(base, "files/mkdir", &req.query);
    let url = match ru.url() {
        Ok(u) => u,
        Err(e) => {
            return Err(e);
        },
    };
    Ok(PreparedRequest { url, body: None })
}

/// Prepares a `files/flush` request: the target URL, no body.
pub fn prepare_files_flush(base: &url::Url, req: &FlushRequest) -> (r: Result<
    PreparedRequest,
    Error,
>)
    ensures
        (r is Ok <==> url_parse(target_text(*base, "files/flush"@, req.query.encoding()))
            is Some),
        r is Err ==> r->Err_0 == Error::UrlParse,
        (r is Ok ==> url_str(r->Ok_0.url) == url_parse(
            target_text(*base, "files/flush"@, req.query.encoding()),
        )->0),
        r is Ok ==> r->Ok_0.body is None,
{
    let ru = RequestUrl::new(base, "files/flush", &req.query);
    let url = match ru.url() {
        Ok(u) => u,
        Err(e) => {
            return Err(e);
        },
    };
    Ok(PreparedRequest { url, body: None })
}

/// Prepares a `files/stat` request: the target URL, no body.
pub fn prepare_files_stat(base: &url::Url, req: &StatRequest) -> (r: Result<
    PreparedRequest,
    Error,
>)
    ensures
        (r is Ok <==> url_parse(target_text(*base, "files/stat"@, req.query.encoding()))
            is Some),
        r is Err ==> r->Err_0 == Error::UrlParse,
        (r is Ok ==> url_str(r->Ok_0.url) == url_parse(
            target_text(*base, "files/stat"@, req.query.encoding()),
        )->0),
        r is Ok ==> r->Ok_0.body is None,
{
    let ru = RequestUrl::new(base, "files/stat", &req.query);
    let url = match ru.url() {
        Ok(u) => u,
        Err(e) => {
            return Err(e);
        },
    };
    Ok(PreparedRequest { url, body: None })
}

/// Prepares a `files/write` request: the target URL and the data part.
pub fn prepare_files_write(base: &url::Url, req: &WriteRequest) -> (r: Result<
    PreparedRequest,
    Error,
>)
    ensures
        (r is Ok <==> url_parse(target_text(*base, "files/write"@, req.query.encoding()))
            is Some),
        r is Err ==> r->Err_0 == Error::UrlParse,
        (r is Ok ==> url_str(r->Ok_0.url) == url_parse(
            target_text(*base, "files/write"@, req.query.encoding()),
        )->0),
        (r is Ok ==> (r->Ok_0.body matches Some(
            MultipartBody::FilePart { name, filename, bytes },
        ) && name@ == "data"@ && filename@ == req.filename@ && bytes@ == req.bytes@)),
{
    let ru = RequestUrl::new(base, "files/write", &req.query);
    let url = match ru.url() {
        Ok(u) => u,
        Err(e) => {
            return Err(e);
        },
    };
    let body = match req.form() {
        Ok(b) => b,
        Err(e) => {
            return Err(e);
        },
    };
    Ok(PreparedRequest { url, body: Some(body) })
}

/// Prepares a `dag/put` request: the target URL and the JSON text part.
pub fn prepare_dag_put(base: &url::Url, req: &PutRequest) -> (r: Result<PreparedRequest, Error>)
    ensures
        (r is Ok <==> url_parse(target_text(*base, "dag/put"@, req.query.encoding()))
            is Some),
        r is Err ==> r->Err_0 == Error::UrlParse,
        (r is Ok ==> url_str(r->Ok_0.url) == url_parse(
            target_text(*base, "dag/put"@, req.query.encoding()),
        )->0),
        (r is Ok ==> (r->Ok_0.body matches Some(MultipartBody::TextPart { name, text })
            && name@ == "object data"@ && text@ == json_text(json_model(req.object_data)))),
{
    let ru = RequestUrl::new(base, "dag/put", &req.query);
    let url = match ru.url() {
        Ok(u) => u,
        Err(e) => {
            return Err(e);
        },
    };
    let body = match req.form() {
        Ok(b) => b,
        Err(e) => {
            return Err(e);
        },
    };
    Ok(PreparedRequest { url, body: Some(body) })
}

} // verus!
