//! Crate-wide guarantees, stated and proved once.

use vstd::prelude::*;

use crate::client::{send_outcome, target_text};
use crate::encoding::{bool_chars, join_pairs, render_pair};
use crate::error::Error;
use crate::req::add::AddQuery;
use crate::req::dag::PutQuery;
use crate::req::files::FlushQuery;
use crate::request::{compose_url, QueryParam};
use crate::urlutil::url_str;

verus! {

/// A query value with every optional field unset encodes to the empty
/// string: here for `add`, whose fields are all optional.
pub proof fn lemma_unset_add_query_encodes_empty(q: AddQuery)
    requires
        q.quiet is None,
        q.quieter is None,
        q.silent is None,
        q.progress is None,
        q.trickle is None,
        q.only_hash is None,
        q.wrap_with_directory is None,
        q.chunker is None,
        q.raw_leaves is None,
        q.nocopy is None,
        q.fscache is None,
        q.cid_version is None,
        q.hash is None,
        q.inline is None,
        q.inline_limit is None,
        q.pin is None,
        q.to_files is None,
    ensures
        q.encoding() == Seq::<char>::empty(),
{
    assert(q.query_pairs().len() == 0);
}

/// A query value with every optional field unset encodes to the empty
/// string: here for `dag/put`, whose fields are all optional.
pub proof fn lemma_unset_put_query_encodes_empty(q: PutQuery)
    requires
        q.store_codec is None,
        q.input_codec is None,
        q.pin is None,
        q.hash is None,
        q.allow_big_block is None,
    ensures
        q.encoding() == Seq::<char>::empty(),
{
    assert(q.query_pairs().len() == 0);
}

/// A query value with every optional field unset encodes to the empty
/// string: here for `files/flush`, whose one field is optional.
pub proof fn lemma_unset_flush_query_encodes_empty(q: FlushQuery)
    requires
        q.arg is None,
    ensures
        q.encoding() == Seq::<char>::empty(),
{
    assert(q.query_pairs().len() == 0);
}

/// A query value with exactly one field set encodes to
/// `<canonical-name>=<canonical-value>` and nothing else.
pub proof fn lemma_single_pair_encoding(ps: Seq<(Seq<char>, Seq<char>)>)
    requires
        ps.len() == 1,
    ensures
        join_pairs(ps) == ps[0].0 + "="@ + ps[0].1,
{
    assert(join_pairs(ps) == render_pair(ps[0]));
}

/// A multi-word field encodes under its canonical kebab-case wire name,
/// whatever it is called in memory: an `add` query with only `raw_leaves`
/// set encodes to exactly `raw-leaves=<bool>`.
pub proof fn lemma_raw_leaves_canonical_casing(q: AddQuery, b: bool)
    requires
        q.quiet is None,
        q.quieter is None,
        q.silent is None,
        q.progress is None,
        q.trickle is None,
        q.only_hash is None,
        q.wrap_with_directory is None,
        q.chunker is None,
        q.raw_leaves == Some(b),
        q.nocopy is None,
        q.fscache is None,
        q.cid_version is None,
        q.hash is None,
        q.inline is None,
        q.inline_limit is None,
        q.pin is None,
        q.to_files is None,
    ensures
        q.encoding() == "raw-leaves"@ + "="@ + bool_chars(b),
{
    let ps = q.query_pairs();
    assert(ps == Seq::<(Seq<char>, Seq<char>)>::empty().push(("raw-leaves"@, bool_chars(b))));
    lemma_single_pair_encoding(ps);
}

/// URL composition is deterministic and positional: the text is always the
/// base, `/`, the path and `?` followed by the encoded query, so two
/// targets that differ only in the query share everything up to and
/// including the `?`, and differ only in what follows it.
pub proof fn lemma_url_composition(base: Seq<char>, path: Seq<char>, q1: Seq<char>, q2: Seq<char>)
    ensures
        compose_url(base, path, q1) == base + "/"@ + path + "?"@ + q1,
        compose_url(base, path, q1).take((base + "/"@ + path + "?"@).len() as int)
            == compose_url(base, path, q2).take((base + "/"@ + path + "?"@).len() as int),
        compose_url(base, path, q1).skip((base + "/"@ + path + "?"@).len() as int) == q1,
{
    let prefix = base + "/"@ + path + "?"@;
    assert(compose_url(base, path, q1).take(prefix.len() as int) =~= prefix);
    assert(compose_url(base, path, q2).take(prefix.len() as int) =~= prefix);
    assert(compose_url(base, path, q1).skip(prefix.len() as int) =~= q1);
}

/// Two request targets that share their base endpoint and path compose to
/// texts that agree through the `?`; what follows it is exactly each one's
/// encoded query.  So changing a query field changes only the query
/// portion of the target text.  Which components the `url` crate then
/// reads out of the shared prefix when the text is validated is that
/// crate's own parsing, and is not restated here.
pub proof fn lemma_target_text_shares_prefix(
    base: url::Url,
    path: Seq<char>,
    q1: Seq<char>,
    q2: Seq<char>,
)
    ensures
        target_text(base, path, q1).take((url_str(base) + "/"@ + path + "?"@).len() as int)
            == target_text(base, path, q2).take(
            (url_str(base) + "/"@ + path + "?"@).len() as int,
        ),
        target_text(base, path, q1).skip((url_str(base) + "/"@ + path + "?"@).len() as int)
            == q1,
{
    lemma_url_composition(url_str(base), path, q1, q2);
}

/// A reachable server that answers with a non-success status and a server
/// that cannot be reached at all yield distinct error kinds, so a caller
/// can always tell the two failure modes apart.
pub proof fn lemma_failure_modes_distinct(s: u16)
    requires
        !(200 <= s <= 299),
    ensures
        send_outcome(None) == Err::<u16, Error>(Error::RequestError),
        send_outcome(Some(s)) == Err::<u16, Error>(Error::RequestFailed),
        send_outcome(None) != send_outcome(Some(s)),
{
}

} // verus!
