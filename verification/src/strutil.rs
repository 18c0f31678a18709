//! Building strings out of ASCII bytes.
//!
//! The encoded query strings and decimal renderings produced by this crate
//! are pure ASCII.  They are assembled as byte vectors and turned into
//! `String`s at the very end.

use vstd::prelude::*;

verus! {

/// The characters spelled by a sequence of ASCII bytes, one per byte.
pub open spec fn ascii_chars(bs: Seq<u8>) -> Seq<char> {
    bs.map_values(|b: u8| b as char)
}

/// Whether every byte of the sequence is ASCII.
pub open spec fn all_ascii(bs: Seq<u8>) -> bool {
    forall|i: int| 0 <= i < bs.len() ==> bs[i] < 0x80
}

/// Relies on `String::from_utf8`: ASCII bytes are valid UTF-8, and decode to
/// one `char` per byte, each with the byte's code point.
#[verifier::external_body]
pub fn ascii_to_string(bs: Vec<u8>) -> (r: String)
    requires
        all_ascii(bs@),
    ensures
        r@ == ascii_chars(bs@),
{
    match String::from_utf8(bs) {
        Ok(s) => s,
        Err(_) => String::new(),
    }
}

} // verus!
