//! The `add` request: upload bytes to IPFS as a content-addressed file.

use vstd::prelude::*;

use crate::encoding::{
    append_pair, bool_str, flag_pair, i32_to_string, int32_pair, join_pairs, percent_encode,
    str_pair,
};
use crate::error::Error;
use crate::request::{MultipartBody, QueryParam, Request};

verus! {

/// Query of `add`.  Every field is optional; unset fields are omitted from
/// the encoded query string.
#[derive(Debug, Default, Clone)]
pub struct AddQuery {
    /// Write minimal output.
    pub quiet: Option<bool>,
    /// Write only the final hash.
    pub quieter: Option<bool>,
    /// Write no output.
    pub silent: Option<bool>,
    /// Stream progress data.
    pub progress: Option<bool>,
    /// Use trickle-dag format for dag generation.
    pub trickle: Option<bool>,
    /// Only chunk and hash; do not write to disk.
    pub only_hash: Option<bool>,
    /// Wrap files with a directory object.
    pub wrap_with_directory: Option<bool>,
    /// Chunking algorithm, `size-[bytes]`, `rabin-[min]-[avg]-[max]` or
    /// `buzhash`.
    pub chunker: Option<String>,
    /// Use raw blocks for leaf nodes.
    pub raw_leaves: Option<bool>,
    /// Add the file using the filestore.
    pub nocopy: Option<bool>,
    /// Check the filestore for pre-existing blocks.
    pub fscache: Option<bool>,
    /// CID version.
    pub cid_version: Option<i32>,
    /// Hash function to use.
    pub hash: Option<String>,
    /// Inline small blocks into CIDs.
    pub inline: Option<bool>,
    /// Maximum block size to inline.
    pub inline_limit: Option<i32>,
    /// Pin locally to protect added files from garbage collection.
    pub pin: Option<bool>,
    /// Add a reference to the MFS at the provided path.
    pub to_files: Option<String>,
}

impl AddQuery {
    /// The rendered pairs of the first half of the field table (through
    /// `raw-leaves`), in declaration order.
    pub open spec fn pairs_head(self) -> Seq<(Seq<char>, Seq<char>)> {
        let ps = Seq::<(Seq<char>, Seq<char>)>::empty();
        let ps = flag_pair(ps, "quiet"@, self.quiet);
        let ps = flag_pair(ps, "quieter"@, self.quieter);
        let ps = flag_pair(ps, "silent"@, self.silent);
        let ps = flag_pair(ps, "progress"@, self.progress);
        let ps = flag_pair(ps, "trickle"@, self.trickle);
        let ps = flag_pair(ps, "only-hash"@, self.only_hash);
        let ps = flag_pair(ps, "wrap-with-directory"@, self.wrap_with_directory);
        let ps = str_pair(ps, "chunker"@, self.chunker);
        let ps = flag_pair(ps, "raw-leaves"@, self.raw_leaves);
        ps
    }

    #[verifier::rlimit(100)]
    #[verifier::spinoff_prover]
    fn encode_head(&self, out: &mut String, any: &mut bool)
        requires
            old(out)@ == Seq::<char>::empty(),
            !*old(any),
        ensures
            final(out)@ == join_pairs(self.pairs_head()),
            *final(any) == (self.pairs_head().len() > 0),
    {
        let ghost mut ps = Seq::<(Seq<char>, Seq<char>)>::empty();
        if let Some(b) = self.quiet {
            append_pair(out, any, "quiet", bool_str(b), Ghost(ps));
        }
        proof {
            ps = flag_pair(ps, "quiet"@, self.quiet);
        }
        if let Some(b) = self.quieter {
            append_pair(out, any, "quieter", bool_str(b), Ghost(ps));
        }
        proof {
            ps = flag_pair(ps, "quieter"@, self.quieter);
        }
        if let Some(b) = self.silent {
            append_pair(out, any, "silent", bool_str(b), Ghost(ps));
        }
        proof {
            ps = flag_pair(ps, "silent"@, self.silent);
        }
        if let Some(b) = self.progress {
            append_pair(out, any, "progress", bool_str(b), Ghost(ps));
        }
        proof {
            ps = flag_pair(ps, "progress"@, self.progress);
        }
        if let Some(b) = self.trickle {
            append_pair(out, any, "trickle", bool_str(b), Ghost(ps));
        }
        proof {
            ps = flag_pair(ps, "trickle"@, self.trickle);
        }
        if let Some(b) = self.only_hash {
            append_pair(out, any, "only-hash", bool_str(b), Ghost(ps));
        }
        proof {
            ps = flag_pair(ps, "only-hash"@, self.only_hash);
        }
        if let Some(b) = self.wrap_with_directory {
            append_pair(out, any, "wrap-with-directory", bool_str(b), Ghost(ps));
        }
        proof {
            ps = flag_pair(ps, "wrap-with-directory"@, self.wrap_with_directory);
        }
        if let Some(s) = &self.chunker {
            let v = percent_encode(s.as_str());
            append_pair(out, any, "chunker", v.as_str(), Ghost(ps));
        }
        proof {
            ps = str_pair(ps, "chunker"@, self.chunker);
        }
        if let Some(b) = self.raw_leaves {
            append_pair(out, any, "raw-leaves", bool_str(b), Ghost(ps));
        }
        proof {
            ps = flag_pair(ps, "raw-leaves"@, self.raw_leaves);
        }
        proof {
            assert(ps == self.pairs_head());
        }
    }

    #[verifier::rlimit(100)]
    #[verifier::spinoff_prover]
    fn encode_tail(&self, out: &mut String, any: &mut bool)
        requires
            old(out)@ == join_pairs(self.pairs_head()),
            *old(any) == (self.pairs_head().len() > 0),
        ensures
            final(out)@ == join_pairs(self.query_pairs()),
    {
        let ghost mut ps = self.pairs_head();
        if let Some(b) = self.nocopy {
            append_pair(out, any, "nocopy", bool_str(b), Ghost(ps));
        }
        proof {
            ps = flag_pair(ps, "nocopy"@, self.nocopy);
        }
        if let Some(b) = self.fscache {
            append_pair(out, any, "fscache", bool_str(b), Ghost(ps));
        }
        proof {
            ps = flag_pair(ps, "fscache"@, self.fscache);
        }
        if let Some(n) = self.cid_version {
            let v = i32_to_string(n);
            append_pair(out, any, "cid-version", v.as_str(), Ghost(ps));
        }
        proof {
            ps = int32_pair(ps, "cid-version"@, self.cid_version);
        }
        if let Some(s) = &self.hash {
            let v = percent_encode(s.as_str());
            append_pair(out, any, "hash", v.as_str(), Ghost(ps));
        }
        proof {
            ps = str_pair(ps, "hash"@, self.hash);
        }
        if let Some(b) = self.inline {
            append_pair(out, any, "inline", bool_str(b), Ghost(ps));
        }
        proof {
            ps = flag_pair(ps, "inline"@, self.inline);
        }
        if let Some(n) = self.inline_limit {
            let v = i32_to_string(n);
            append_pair(out, any, "inline-limit", v.as_str(), Ghost(ps));
        }
        proof {
            ps = int32_pair(ps, "inline-limit"@, self.inline_limit);
        }
        if let Some(b) = self.pin {
            append_pair(out, any, "pin", bool_str(b), Ghost(ps));
        }
        proof {
            ps = flag_pair(ps, "pin"@, self.pin);
        }
        if let Some(s) = &self.to_files {
            let v = percent_encode(s.as_str());
            append_pair(out, any, "to-files", v.as_str(), Ghost(ps));
        }
        proof {
            ps = str_pair(ps, "to-files"@, self.to_files);
        }
        proof {
            assert(ps == self.query_pairs());
        }
    }
}

impl QueryParam for AddQuery {
    open spec fn query_pairs(&self) -> Seq<(Seq<char>, Seq<char>)> {
        let ps = self.pairs_head();
        let ps = flag_pair(ps, "nocopy"@, self.nocopy);
        let ps = flag_pair(ps, "fscache"@, self.fscache);
        let ps = int32_pair(ps, "cid-version"@, self.cid_version);
        let ps = str_pair(ps, "hash"@, self.hash);
        let ps = flag_pair(ps, "inline"@, self.inline);
        let ps = int32_pair(ps, "inline-limit"@, self.inline_limit);
        let ps = flag_pair(ps, "pin"@, self.pin);
        let ps = str_pair(ps, "to-files"@, self.to_files);
        ps
    }

    fn encode(&self) -> (r: String) {
        let mut out = String::new();
        let mut any = false;
        self.encode_head(&mut out, &mut any);
        self.encode_tail(&mut out, &mut any);
        out
    }
}

/// An `add` request: the query plus the (required) file payload.
#[derive(Debug, Clone)]
pub struct AddRequest {
    pub query: AddQuery,
    /// The filename sent with the multipart part.
    pub filename: Option<String>,
    /// The raw bytes to add.
    pub bytes: Option<Vec<u8>>,
}

impl AddRequest {
    /// A request with the given query and no payload yet.
    pub fn new(query: AddQuery) -> (r: Self)
        ensures
            r.query == query,
            r.filename is None,
            r.bytes is None,
    {
        AddRequest { query, filename: None, bytes: None }
    }

    /// A request with the given query and payload.
    pub fn new_with_query_and_file(query: AddQuery, filename: String, bytes: Vec<u8>) -> (r: Self)
        ensures
            r.query == query,
            r.filename == Some(filename),
            r.bytes == Some(bytes),
    {
        AddRequest { query, filename: Some(filename), bytes: Some(bytes) }
    }

    /// A request with the default query and the given payload.
    pub fn new_with_file(filename: String, bytes: Vec<u8>) -> (r: Self)
        ensures
            r.query.quiet is None,
            r.query.quieter is None,
            r.query.silent is None,
            r.query.progress is None,
            r.query.trickle is None,
            r.query.only_hash is None,
            r.query.wrap_with_directory is None,
            r.query.chunker is None,
            r.query.raw_leaves is None,
            r.query.nocopy is None,
            r.query.fscache is None,
            r.query.cid_version is None,
            r.query.hash is None,
            r.query.inline is None,
            r.query.inline_limit is None,
            r.query.pin is None,
            r.query.to_files is None,
            r.filename == Some(filename),
            r.bytes == Some(bytes),
    {
        AddRequest {
            query: AddQuery {
                quiet: None,
                quieter: None,
                silent: None,
                progress: None,
                trickle: None,
                only_hash: None,
                wrap_with_directory: None,
                chunker: None,
                raw_leaves: None,
                nocopy: None,
                fscache: None,
                cid_version: None,
                hash: None,
                inline: None,
                inline_limit: None,
                pin: None,
                to_files: None,
            },
            filename: Some(filename),
            bytes: Some(bytes),
        }
    }

    /// Describes the multipart body of this request: exactly one part named
    /// `file` carrying the bytes under the given filename.
    ///
    /// The payload is required: building fails with [`Error::NoFileBytes`]
    /// when the bytes are unset, and with [`Error::NoFilename`] when the
    /// filename is unset.
    pub fn form(&self) -> (r: Result<MultipartBody, Error>)
        ensures
            r is Ok <==> self.bytes is Some && self.filename is Some,
            self.bytes is None ==> r == Err::<MultipartBody, Error>(Error::NoFileBytes),
            self.bytes is Some && self.filename is None ==> r == Err::<MultipartBody, Error>(
                Error::NoFilename,
            ),
            (r is Ok ==> (r->Ok_0 matches MultipartBody::FilePart { name, filename, bytes }
                && name@ == "file"@ && filename@ == self.filename->0@ && bytes@
                == self.bytes->0@)),
    {
        let bytes = match &self.bytes {
            Some(b) => b.clone(),
            None => {
                return Err(Error::NoFileBytes);
            },
        };
        let filename = match &self.filename {
            Some(f) => f.clone(),
            None => {
                return Err(Error::NoFilename);
            },
        };
        Ok(MultipartBody::FilePart { name: "file".to_owned(), filename, bytes })
    }
}

impl Request for AddRequest {
    open spec fn spec_path(&self) -> Seq<char> {
        "add"@
    }

    fn path(&self) -> (r: String) {
        "add".to_owned()
    }
}

} // verus!
