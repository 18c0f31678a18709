//! A typed client core for the IPFS Kubo HTTP API.
//!
//! The library models a small set of Kubo endpoints (`add`, `files/mkdir`,
//! `files/write`, `files/stat`, `files/flush`, `dag/put`) as strongly typed
//! request/response pairs.  It builds the request URL (query encoding
//! included), describes the multipart payload when one is required, classifies
//! the transport outcome, and parses the JSON response bodies into typed
//! values.  Performing the actual HTTP call is left to the caller: every
//! function here is a pure value-to-value transform.

pub mod client;
pub mod domain;
pub mod encoding;
pub mod error;
pub mod errors;
pub mod json;
pub mod laws;
pub mod req;
pub mod request;
pub mod resp;
pub mod response;
pub mod strutil;
pub mod urlutil;

pub use error::Error;
