//! The closed error taxonomy of the client layer.

use vstd::prelude::*;

verus! {

/// Every failure the client layer can report, as a typed value.
///
/// Request construction, transport and response parsing each own a few kinds;
/// no kind is ever swallowed or retried inside the library.
#[derive(Debug, Clone, Copy, PartialEq, Eq, Structural)]
pub enum Error {
    /// A query parameter could not be encoded.
    UrlEncode,
    /// The composed request URL is not a valid absolute URL.
    UrlParse,
    /// The JSON payload of a `dag/put` request could not be serialized.
    SerializeObject,
    /// A payload-bearing request was built without its file bytes.
    NoFileBytes,
    /// A payload-bearing request was built without its filename.
    NoFilename,
    /// The server was reached but answered with a non-success HTTP status.
    RequestFailed,
    /// The request never completed at the transport level.
    RequestError,
    /// The response body could not be read in full.
    ResponseBodyReadError,
    /// The response body was not valid JSON or did not match the expected shape.
    ResponseBodySerializeError,
}

impl Error {
    /// A short human-readable description of the error kind.
    pub fn message(&self) -> (r: &'static str)
        ensures
            r@ == self.spec_message(),
    {
        match self {
            Error::UrlEncode => "request url query encode error",
            Error::UrlParse => "request url parse error",
            Error::SerializeObject => "serialize object error",
            Error::NoFileBytes => "no file bytes",
            Error::NoFilename => "no filename",
            Error::RequestFailed => "request failed",
            Error::RequestError => "request error",
            Error::ResponseBodyReadError => "response body read error",
            Error::ResponseBodySerializeError => "response body serialize error",
        }
    }

    /// What `message` returns for each kind.
    pub open spec fn spec_message(self) -> Seq<char> {
        match self {
            Error::UrlEncode => "request url query encode error"@,
            Error::UrlParse => "request url parse error"@,
            Error::SerializeObject => "serialize object error"@,
            Error::NoFileBytes => "no file bytes"@,
            Error::NoFilename => "no filename"@,
            Error::RequestFailed => "request failed"@,
            Error::RequestError => "request error"@,
            Error::ResponseBodyReadError => "response body read error"@,
            Error::ResponseBodySerializeError => "response body serialize error"@,
        }
    }
}

} // verus!
