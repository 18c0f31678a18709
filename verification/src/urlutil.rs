//! The boundary to the `url` crate.
//!
//! The client keeps its base endpoint and its request targets as parsed
//! `url::Url` values.  Such a value is opaque here; what the contracts speak
//! of is its serialization, named by [`url_str`], and the outcome of parsing
//! a given text, named by [`url_parse`].

use vstd::prelude::*;

verus! {

#[verifier::external_type_specification]
#[verifier::external_body]
pub struct ExUrl(url::Url);

#[verifier::external_type_specification]
#[verifier::external_body]
pub struct ExUrlParseError(url::ParseError);

/// The serialization of a parsed URL: the text `url::Url::as_str` returns.
pub uninterp spec fn url_str(u: url::Url) -> Seq<char>;

/// What `url::Url::parse` makes of a text: the serialization of the parsed
/// URL when the text is a valid absolute URL, nothing otherwise.
pub uninterp spec fn url_parse(s: Seq<char>) -> Option<Seq<char>>;

/// Relies on `url::Url::parse`: it succeeds exactly on texts that are valid
/// absolute URLs, and both the outcome and the parsed URL's serialization
/// depend on the input text alone.
#[verifier::external_body]
pub fn parse_url(s: &str) -> (r: Result<url::Url, url::ParseError>)
    ensures
        r is Ok <==> url_parse(s@) is Some,
        r is Ok ==> url_str(r->Ok_0) == url_parse(s@)->0,
{
    url::Url::parse(s)
}

/// Relies on `url::Url::as_str`: it returns the URL's serialization.
#[verifier::external_body]
pub fn url_to_string(u: &url::Url) -> (r: String)
    ensures
        r@ == url_str(*u),
{
    u.as_str().to_owned()
}

} // verus!
