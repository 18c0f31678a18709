//! Rendering query parameters as a URL query string.
//!
//! A query is a sequence of `name=value` pairs joined by `&`.  Names are the
//! protocol's canonical kebab-case spellings and contain only unreserved
//! characters; values are rendered per their type: booleans as `true`/`false`,
//! integers in decimal, strings percent-encoded the way HTML forms encode
//! them (unreserved bytes verbatim, space as `+`, every other byte as `%XX`
//! with upper-case hex digits over its UTF-8 encoding).

use vstd::prelude::*;

use crate::strutil::{all_ascii, ascii_chars, ascii_to_string};

verus! {

/// One `name=value` pair, already rendered, as it appears in the query string.
pub open spec fn render_pair(p: (Seq<char>, Seq<char>)) -> Seq<char> {
    p.0 + "="@ + p.1
}

/// The pairs joined with `&`, in order.
pub open spec fn join_pairs(ps: Seq<(Seq<char>, Seq<char>)>) -> Seq<char>
    decreases ps.len(),
{
    if ps.len() == 0 {
        Seq::empty()
    } else if ps.len() == 1 {
        render_pair(ps[0])
    } else {
        join_pairs(ps.drop_last()) + "&"@ + render_pair(ps.last())
    }
}

/// The canonical rendering of a boolean value.
pub open spec fn bool_chars(b: bool) -> Seq<char> {
    if b {
        "true"@
    } else {
        "false"@
    }
}

/// Renders a boolean as `true` or `false`.
pub fn bool_str(b: bool) -> (r: &'static str)
    ensures
        r@ == bool_chars(b),
{
    if b {
        "true"
    } else {
        "false"
    }
}

/// Appends one rendered pair to a query string under construction.
///
/// `ps` is the list of pairs already in `out`; `any` says whether that list
/// is non-empty, so that pairs after the first are preceded by `&`.
pub(crate) fn append_pair(
    out: &mut String,
    any: &mut bool,
    name: &str,
    value: &str,
    Ghost(ps): Ghost<Seq<(Seq<char>, Seq<char>)>>,
)
    requires
        old(out)@ == join_pairs(ps),
        *old(any) == (ps.len() > 0),
    ensures
        final(out)@ == join_pairs(ps.push((name@, value@))),
        *final(any) == (ps.push((name@, value@)).len() > 0),
{
    if *any {
        out.append("&");
    }
    out.append(name);
    out.append("=");
    out.append(value);
    *any = true;
    proof {
        lemma_join_pairs_push(ps, (name@, value@));
    }
}

/// The decimal digit with value `d`.
pub open spec fn dec_digit(d: int) -> char {
    ((0x30 + d) as u8) as char
}

/// The decimal rendering of a non-negative integer, most significant digit
/// first, with no leading zeros (a single `0` for zero).
pub open spec fn dec_chars(n: int) -> Seq<char>
    recommends
        n >= 0,
    decreases n,
{
    if n < 10 {
        seq![dec_digit(n)]
    } else {
        dec_chars(n / 10).push(dec_digit(n % 10))
    }
}

/// The decimal rendering of an integer: a `-` sign when negative, then the
/// digits of its magnitude.
pub open spec fn int_chars(n: int) -> Seq<char> {
    if n < 0 {
        seq!['-'] + dec_chars(-n)
    } else {
        dec_chars(n)
    }
}

/// Appends the decimal digits of `n` to `out`.
fn push_dec_u64(out: &mut Vec<u8>, n: u64)
    ensures
        ascii_chars(final(out)@) == ascii_chars(old(out)@) + dec_chars(n as int),
        all_ascii(old(out)@) ==> all_ascii(final(out)@),
    decreases n,
{
    if n >= 10 {
        push_dec_u64(out, n / 10);
    }
    let d: u8 = 0x30 + (n % 10) as u8;
    let ghost before = out@;
    out.push(d);
    proof {
        assert(d as char == dec_digit(n as int % 10));
        assert(ascii_chars(before.push(d)) =~= ascii_chars(before).push(d as char));
        if n < 10 {
            assert(dec_chars(n as int) =~= Seq::<char>::empty().push(dec_digit(n as int)));
            assert(ascii_chars(final(out)@) =~= ascii_chars(old(out)@) + dec_chars(n as int));
        } else {
            assert(ascii_chars(final(out)@) =~= ascii_chars(old(out)@) + dec_chars(n as int));
        }
    }
}

/// Renders an unsigned integer in decimal.
pub fn u64_to_string(n: u64) -> (r: String)
    ensures
        r@ == dec_chars(n as int),
{
    let mut out: Vec<u8> = Vec::new();
    push_dec_u64(&mut out, n);
    proof {
        assert(ascii_chars(out@) =~= dec_chars(n as int));
    }
    ascii_to_string(out)
}

/// Renders a signed integer in decimal.
pub fn i64_to_string(n: i64) -> (r: String)
    ensures
        r@ == int_chars(n as int),
{
    let mut out: Vec<u8> = Vec::new();
    if n < 0 {
        out.push(0x2D);
        let mag: u64 = if n == i64::MIN {
            9223372036854775808u64
        } else {
            (-n) as u64
        };
        push_dec_u64(&mut out, mag);
        proof {
            assert(0x2Du8 as char == '-');
            assert(ascii_chars(out@) =~= int_chars(n as int));
        }
    } else {
        push_dec_u64(&mut out, n as u64);
        proof {
            assert(ascii_chars(out@) =~= int_chars(n as int));
        }
    }
    ascii_to_string(out)
}

/// Renders a signed 32-bit integer in decimal.
pub fn i32_to_string(n: i32) -> (r: String)
    ensures
        r@ == int_chars(n as int),
{
    i64_to_string(n as i64)
}

/// Whether the code point may stand for itself in a form-encoded value:
/// ASCII letters, digits, and `*`, `-`, `.`, `_`.
pub open spec fn unreserved_cp(u: u32) -> bool {
    (0x41 <= u <= 0x5A) || (0x61 <= u <= 0x7A) || (0x30 <= u <= 0x39) || u == 0x2A || u == 0x2D
        || u == 0x2E || u == 0x5F
}

/// The upper-case hexadecimal digit with value `d`.
pub open spec fn hex_char(d: int) -> char {
    if d < 10 {
        ((0x30 + d) as u8) as char
    } else {
        ((0x37 + d) as u8) as char
    }
}

/// The three characters `%XX` that encode one byte.
pub open spec fn pct_byte_chars(b: u8) -> Seq<char> {
    seq!['%', hex_char(b as int / 16), hex_char(b as int % 16)]
}

/// The `%XX` triples of a byte sequence, in order.
pub open spec fn pct_bytes(bs: Seq<u8>) -> Seq<char>
    decreases bs.len(),
{
    if bs.len() == 0 {
        Seq::empty()
    } else {
        pct_bytes(bs.drop_last()) + pct_byte_chars(bs.last())
    }
}

proof fn lemma_pct_bytes_one(b: u8)
    ensures
        pct_bytes(seq![b]) == pct_byte_chars(b),
{
    assert(seq![b].drop_last() =~= Seq::<u8>::empty());
    assert(pct_bytes(Seq::<u8>::empty()) == Seq::<char>::empty());
    assert(Seq::<char>::empty() + pct_byte_chars(b) =~= pct_byte_chars(b));
}

proof fn lemma_pct_bytes_push(bs: Seq<u8>, b: u8)
    ensures
        pct_bytes(bs.push(b)) == pct_bytes(bs) + pct_byte_chars(b),
{
    assert(bs.push(b).drop_last() =~= bs);
    assert(bs.push(b).last() == b);
}

/// The form encoding of one character: unreserved characters stand for
/// themselves, space becomes `+`, and every other character is the `%XX`
/// encoding of each byte of its UTF-8 form.
pub open spec fn pe_char(c: char) -> Seq<char> {
    let u = c as u32;
    if unreserved_cp(u) {
        seq![c]
    } else if u == 0x20 {
        seq!['+']
    } else {
        pct_bytes(vstd::utf8::encode_scalar(u))
    }
}

/// The form encoding of a string, character by character.
pub open spec fn pe_chars(s: Seq<char>) -> Seq<char>
    decreases s.len(),
{
    if s.len() == 0 {
        Seq::empty()
    } else {
        pe_chars(s.drop_last()) + pe_char(s.last())
    }
}

/// Appends `%XX` for one byte.
fn push_pct(out: &mut Vec<u8>, b: u8)
    ensures
        ascii_chars(final(out)@) == ascii_chars(old(out)@) + pct_byte_chars(b),
        all_ascii(old(out)@) ==> all_ascii(final(out)@),
{
    let hi: u8 = b / 16;
    let lo: u8 = b % 16;
    let ghost before = out@;
    out.push(0x25);
    out.push(if hi < 10 {
        0x30 + hi
    } else {
        0x37 + hi
    });
    out.push(if lo < 10 {
        0x30 + lo
    } else {
        0x37 + lo
    });
    proof {
        assert(0x25u8 as char == '%');
        assert(ascii_chars(final(out)@) =~= ascii_chars(before) + pct_byte_chars(b));
    }
}

/// Appends the form encoding of one character.
fn push_pe_char(out: &mut Vec<u8>, c: char)
    ensures
        ascii_chars(final(out)@) == ascii_chars(old(out)@) + pe_char(c),
        all_ascii(old(out)@) ==> all_ascii(final(out)@),
{
    let u = c as u32;
    let ghost before = out@;
    if (0x41 <= u && u <= 0x5A) || (0x61 <= u && u <= 0x7A) || (0x30 <= u && u <= 0x39) || u
        == 0x2A || u == 0x2D || u == 0x2E || u == 0x5F {
        out.push(u as u8);
        proof {
            assert((u as u8) as char == c) by {
                vstd::utf8::char_u32_cast(c, u);
            }
            assert(ascii_chars(final(out)@) =~= ascii_chars(before) + pe_char(c));
        }
    } else if u == 0x20 {
        out.push(0x2B);
        proof {
            assert(0x2Bu8 as char == '+');
            assert(ascii_chars(final(out)@) =~= ascii_chars(before) + pe_char(c));
        }
    } else if u < 0x80 {
        push_pct(out, u as u8);
        proof {
            let bs = vstd::utf8::encode_scalar(u);
            assert(bs =~= seq![vstd::utf8::leading_byte_width_1(u)]);
            assert(vstd::utf8::leading_byte_width_1(u) == u as u8) by (bit_vector)
                requires
                    u < 0x80,
            ;
            lemma_pct_bytes_one(u as u8);
            assert(ascii_chars(final(out)@) =~= ascii_chars(before) + pe_char(c));
        }
    } else if u < 0x800 {
        let b0: u8 = 0xC0 | ((u >> 6) & 0x1F) as u8;
        let b1: u8 = 0x80 | (u & 0x3F) as u8;
        push_pct(out, b0);
        push_pct(out, b1);
        proof {
            let bs = vstd::utf8::encode_scalar(u);
            assert(bs =~= seq![b0].push(b1));
            lemma_pct_bytes_one(b0);
            lemma_pct_bytes_push(seq![b0], b1);
            assert(ascii_chars(final(out)@) =~= ascii_chars(before) + pe_char(c));
        }
    } else if u < 0x10000 {
        let b0: u8 = 0xE0 | ((u >> 12) & 0x0F) as u8;
        let b1: u8 = 0x80 | ((u >> 6) & 0x3F) as u8;
        let b2: u8 = 0x80 | (u & 0x3F) as u8;
        push_pct(out, b0);
        push_pct(out, b1);
        push_pct(out, b2);
        proof {
            vstd::utf8::char_is_scalar(c);
            let bs = vstd::utf8::encode_scalar(u);
            assert(bs =~= seq![b0].push(b1).push(b2));
            lemma_pct_bytes_one(b0);
            lemma_pct_bytes_push(seq![b0], b1);
            lemma_pct_bytes_push(seq![b0].push(b1), b2);
            assert(ascii_chars(final(out)@) =~= ascii_chars(before) + pe_char(c));
        }
    } else {
        let b0: u8 = 0xF0 | ((u >> 18) & 0x07) as u8;
        let b1: u8 = 0x80 | ((u >> 12) & 0x3F) as u8;
        let b2: u8 = 0x80 | ((u >> 6) & 0x3F) as u8;
        let b3: u8 = 0x80 | (u & 0x3F) as u8;
        push_pct(out, b0);
        push_pct(out, b1);
        push_pct(out, b2);
        push_pct(out, b3);
        proof {
            vstd::utf8::char_is_scalar(c);
            let bs = vstd::utf8::encode_scalar(u);
            assert(bs =~= seq![b0].push(b1).push(b2).push(b3));
            lemma_pct_bytes_one(b0);
            lemma_pct_bytes_push(seq![b0], b1);
            lemma_pct_bytes_push(seq![b0].push(b1), b2);
            lemma_pct_bytes_push(seq![b0].push(b1).push(b2), b3);
            assert(ascii_chars(final(out)@) =~= ascii_chars(before) + pe_char(c));
        }
    }
}

/// Form-encodes a string value for use in a query pair.
pub fn percent_encode(s: &str) -> (r: String)
    ensures
        r@ == pe_chars(s@),
{
    let n = s.unicode_len();
    let mut out: Vec<u8> = Vec::new();
    let mut i: usize = 0;
    while i < n
        invariant
            i <= n,
            n == s@.len(),
            ascii_chars(out@) == pe_chars(s@.take(i as int)),
            all_ascii(out@),
        decreases n - i,
    {
        let c = s.get_char(i);
        push_pe_char(&mut out, c);
        proof {
            assert(s@.take(i + 1).drop_last() =~= s@.take(i as int));
            assert(s@.take(i + 1).last() == c);
        }
        i = i + 1;
    }
    proof {
        assert(s@.take(n as int) =~= s@);
    }
    ascii_to_string(out)
}

/// The pairs with a required field appended: the name with a prerendered
/// value.
pub open spec fn req_pair(
    ps: Seq<(Seq<char>, Seq<char>)>,
    name: Seq<char>,
    value: Seq<char>,
) -> Seq<(Seq<char>, Seq<char>)> {
    ps.push((name, value))
}

/// The pairs with an optional boolean field appended when it is set.
pub open spec fn flag_pair(
    ps: Seq<(Seq<char>, Seq<char>)>,
    name: Seq<char>,
    v: Option<bool>,
) -> Seq<(Seq<char>, Seq<char>)> {
    match v {
        Some(b) => ps.push((name, bool_chars(b))),
        None => ps,
    }
}

/// The pairs with an optional 32-bit integer field appended when it is set.
pub open spec fn int32_pair(
    ps: Seq<(Seq<char>, Seq<char>)>,
    name: Seq<char>,
    v: Option<i32>,
) -> Seq<(Seq<char>, Seq<char>)> {
    match v {
        Some(n) => ps.push((name, int_chars(n as int))),
        None => ps,
    }
}

/// The pairs with an optional 64-bit integer field appended when it is set.
pub open spec fn int64_pair(
    ps: Seq<(Seq<char>, Seq<char>)>,
    name: Seq<char>,
    v: Option<i64>,
) -> Seq<(Seq<char>, Seq<char>)> {
    match v {
        Some(n) => ps.push((name, int_chars(n as int))),
        None => ps,
    }
}

/// The pairs with an optional string field appended, form-encoded, when it
/// is set.
pub open spec fn str_pair(
    ps: Seq<(Seq<char>, Seq<char>)>,
    name: Seq<char>,
    v: Option<String>,
) -> Seq<(Seq<char>, Seq<char>)> {
    match v {
        Some(s) => ps.push((name, pe_chars(s@))),
        None => ps,
    }
}

/// Joining after one more pair extends the joined prefix by `&` (when the
/// prefix is not empty), the name, `=`, and the value.
pub proof fn lemma_join_pairs_push(ps: Seq<(Seq<char>, Seq<char>)>, p: (Seq<char>, Seq<char>))
    ensures
        join_pairs(ps.push(p)) == join_pairs(ps) + (if ps.len() > 0 {
            "&"@
        } else {
            Seq::<char>::empty()
        }) + p.0 + "="@ + p.1,
{
    let qs = ps.push(p);
    assert(qs.drop_last() =~= ps);
    assert(qs.last() == p);
    if ps.len() == 0 {
        assert(join_pairs(qs) == render_pair(p));
        assert(join_pairs(ps) + Seq::<char>::empty() + p.0 + "="@ + p.1 =~= render_pair(p));
    } else {
        assert(join_pairs(qs) == join_pairs(ps) + "&"@ + render_pair(p));
        assert(join_pairs(ps) + "&"@ + render_pair(p) =~= join_pairs(ps) + "&"@ + p.0 + "="@
            + p.1);
    }
}

} // verus!
