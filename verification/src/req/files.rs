//! Requests against the MFS (`files/*`) endpoints.

use vstd::prelude::*;

use crate::encoding::{
    append_pair, bool_str, flag_pair, i32_to_string, i64_to_string, int32_pair, int64_pair,
    pe_chars, percent_encode, req_pair, str_pair,
};
use crate::error::Error;
use crate::request::{MultipartBody, QueryParam, Request};

verus! {

/// An MFS path with a leading `/` ensured: the text itself when it already
/// starts with `/`, otherwise the text with `/` prepended.
pub open spec fn normalized_path(s: Seq<char>) -> Seq<char> {
    if s.len() > 0 && s[0] == '/' {
        s
    } else {
        "/"@ + s
    }
}

/// Prepends `/` to a path unless it already starts with one.
fn normalize_arg(arg: &str) -> (r: String)
    ensures
        r@ == normalized_path(arg@),
{
    let n = arg.unicode_len();
    if n > 0 && arg.get_char(0) == '/' {
        arg.to_owned()
    } else {
        let mut s = String::new();
        s.append("/");
        s.append(arg);
        s
    }
}

/// Query of `files/chcid`.
#[derive(Debug)]
pub struct ChcidQuery {
    /// Path to change. Default: `/`.
    pub arg: Option<String>,
    /// CID version to use.
    pub cid_version: Option<i32>,
    /// Hash function to use.
    pub hash: Option<String>,
}

/// A `files/chcid` request.
pub struct ChcidRequest {
    pub query: ChcidQuery,
}

/// Query of `files/cp`.
#[derive(Debug)]
pub struct CpQuery {
    /// Source IPFS or MFS path to copy.
    pub source: String,
    /// Destination within MFS.
    pub dest: String,
    /// Make parent directories as needed.
    pub parents: Option<bool>,
}

/// A `files/cp` request.
pub struct CpRequest {
    pub query: CpQuery,
}

/// Query of `files/flush`.
#[derive(Debug, Default)]
pub struct FlushQuery {
    /// Path to flush. Default: `/`.
    pub arg: Option<String>,
}

impl QueryParam for FlushQuery {
    open spec fn query_pairs(&self) -> Seq<(Seq<char>, Seq<char>)> {
        let ps = Seq::<(Seq<char>, Seq<char>)>::empty();
        let ps = str_pair(ps, "arg"@, self.arg);
        ps
    }

    fn encode(&self) -> (r: String) {
        let mut out = String::new();
        let mut any = false;
        let ghost mut ps = Seq::<(Seq<char>, Seq<char>)>::empty();
        if let Some(s) = &self.arg {
            let v = percent_encode(s.as_str());
            append_pair(&mut out, &mut any, "arg", v.as_str(), Ghost(ps));
        }
        proof {
            ps = str_pair(ps, "arg"@, self.arg);
        }
        proof {
            assert(ps == self.query_pairs());
        }
        out
    }
}

/// A `files/flush` request.
pub struct FlushRequest {
    pub query: FlushQuery,
}

impl Request for FlushRequest {
    open spec fn spec_path(&self) -> Seq<char> {
        "files/flush"@
    }

    fn path(&self) -> (r: String) {
        "files/flush".to_owned()
    }
}

/// Query of `files/ls`.
#[derive(Debug)]
pub struct LsQuery {
    /// Path to show a listing for. Default: `/`.
    pub arg: Option<String>,
    /// Use the long listing format.
    pub long: Option<bool>,
    /// Do not sort; list entries in directory order.
    pub u: Option<bool>,
}

/// A `files/ls` request.
pub struct LsRequest {
    pub query: LsQuery,
}

/// Query of `files/mkdir`.
#[derive(Debug, Default)]
pub struct MkdirQuery {
    /// Path of the directory to make.
    pub arg: String,
    /// No error if existing; make parent directories as needed.
    pub parents: Option<bool>,
    /// CID version to use.
    pub cid_version: Option<i32>,
    /// Hash function to use.
    pub hash: Option<String>,
}

impl MkdirQuery {
    /// A query for the given path, normalized to start with `/`, with
    /// `parents` set.
    pub fn new_with_arg(arg: &String) -> (r: Self)
        ensures
            r.arg@ == normalized_path(arg@),
            r.parents == Some(true),
            r.cid_version is None,
            r.hash is None,
    {
        MkdirQuery {
            arg: normalize_arg(arg.as_str()),
            parents: Some(true),
            cid_version: None,
            hash: None,
        }
    }
}

impl QueryParam for MkdirQuery {
    open spec fn query_pairs(&self) -> Seq<(Seq<char>, Seq<char>)> {
        let ps = Seq::<(Seq<char>, Seq<char>)>::empty();
        let ps = req_pair(ps, "arg"@, pe_chars(self.arg@));
        let ps = flag_pair(ps, "parents"@, self.parents);
        let ps = int32_pair(ps, "cid-version"@, self.cid_version);
        let ps = str_pair(ps, "hash"@, self.hash);
        ps
    }

    fn encode(&self) -> (r: String) {
        let mut out = String::new();
        let mut any = false;
        let ghost mut ps = Seq::<(Seq<char>, Seq<char>)>::empty();
        let v = percent_encode(self.arg.as_str());
        append_pair(&mut out, &mut any, "arg", v.as_str(), Ghost(ps));
        proof {
            ps = req_pair(ps, "arg"@, pe_chars(self.arg@));
        }
        if let Some(b) = self.parents {
            append_pair(&mut out, &mut any, "parents", bool_str(b), Ghost(ps));
        }
        proof {
            ps = flag_pair(ps, "parents"@, self.parents);
        }
        if let Some(n) = self.cid_version {
            let v = i32_to_string(n);
            append_pair(&mut out, &mut any, "cid-version", v.as_str(), Ghost(ps));
        }
        proof {
            ps = int32_pair(ps, "cid-version"@, self.cid_version);
        }
        if let Some(s) = &self.hash {
            let v = percent_encode(s.as_str());
            append_pair(&mut out, &mut any, "hash", v.as_str(), Ghost(ps));
        }
        proof {
            ps = str_pair(ps, "hash"@, self.hash);
        }
        proof {
            assert(ps == self.query_pairs());
        }
        out
    }
}

/// A `files/mkdir` request.
pub struct MkdirRequest {
    pub query: MkdirQuery,
}

impl Request for MkdirRequest {
    open spec fn spec_path(&self) -> Seq<char> {
        "files/mkdir"@
    }

    fn path(&self) -> (r: String) {
        "files/mkdir".to_owned()
    }
}

/// Query of `files/mv`.
#[derive(Debug)]
pub struct MvQuery {
    /// Source file to move.
    pub source: String,
    /// Destination path to move the file to.
    pub dest: String,
}

/// A `files/mv` request.
pub struct MvRequest {
    pub query: MvQuery,
}

/// Query of `files/read`.
#[derive(Debug)]
pub struct ReadQuery {
    /// Path of the file to read.
    pub arg: String,
    /// Byte offset to begin reading from.
    pub offset: Option<i64>,
    /// Maximum number of bytes to read.
    pub count: Option<i64>,
}

/// A `files/read` request.
pub struct ReadRequest {
    pub query: ReadQuery,
}

/// Query of `files/rm`.
#[derive(Debug)]
pub struct RmQuery {
    /// File to remove.
    pub arg: String,
    /// Recursively remove directories.
    pub recursive: Option<bool>,
    /// Forcibly remove the target at the path.
    pub force: Option<bool>,
}

/// A `files/rm` request.
pub struct RmRequest {
    pub query: RmQuery,
}

/// Query of `files/stat`.
#[derive(Debug, Default)]
pub struct StatQuery {
    /// Path of the node to stat.
    pub arg: String,
    /// Print statistics in the given format.
    pub format: Option<String>,
    /// Print only the hash.
    pub hash: Option<bool>,
    /// Print only the size.
    pub size: Option<bool>,
    /// Compute the amount of the DAG that is local.
    pub with_local: Option<bool>,
}

impl StatQuery {
    /// A query for the given path, normalized to start with `/`.
    pub fn new_with_arg(arg: &String) -> (r: Self)
        ensures
            r.arg@ == normalized_path(arg@),
            r.format is None,
            r.hash is None,
            r.size is None,
            r.with_local is None,
    {
        StatQuery {
            arg: normalize_arg(arg.as_str()),
            format: None,
            hash: None,
            size: None,
            with_local: None,
        }
    }
}

impl QueryParam for StatQuery {
    open spec fn query_pairs(&self) -> Seq<(Seq<char>, Seq<char>)> {
        let ps = Seq::<(Seq<char>, Seq<char>)>::empty();
        let ps = req_pair(ps, "arg"@, pe_chars(self.arg@));
        let ps = str_pair(ps, "format"@, self.format);
        let ps = flag_pair(ps, "hash"@, self.hash);
        let ps = flag_pair(ps, "size"@, self.size);
        let ps = flag_pair(ps, "with-local"@, self.with_local);
        ps
    }

    fn encode(&self) -> (r: String) {
        let mut out = String::new();
        let mut any = false;
        let ghost mut ps = Seq::<(Seq<char>, Seq<char>)>::empty();
        let v = percent_encode(self.arg.as_str());
        append_pair(&mut out, &mut any, "arg", v.as_str(), Ghost(ps));
        proof {
            ps = req_pair(ps, "arg"@, pe_chars(self.arg@));
        }
        if let Some(s) = &self.format {
            let v = percent_encode(s.as_str());
            append_pair(&mut out, &mut any, "format", v.as_str(), Ghost(ps));
        }
        proof {
            ps = str_pair(ps, "format"@, self.format);
        }
        if let Some(b) = self.hash {
            append_pair(&mut out, &mut any, "hash", bool_str(b), Ghost(ps));
        }
        proof {
            ps = flag_pair(ps, "hash"@, self.hash);
        }
        if let Some(b) = self.size {
            append_pair(&mut out, &mut any, "size", bool_str(b), Ghost(ps));
        }
        proof {
            ps = flag_pair(ps, "size"@, self.size);
        }
        if let Some(b) = self.with_local {
            append_pair(&mut out, &mut any, "with-local", bool_str(b), Ghost(ps));
        }
        proof {
            ps = flag_pair(ps, "with-local"@, self.with_local);
        }
        proof {
            assert(ps == self.query_pairs());
        }
        out
    }
}

/// A `files/stat` request.
pub struct StatRequest {
    pub query: StatQuery,
}

impl Request for StatRequest {
    open spec fn spec_path(&self) -> Seq<char> {
        "files/stat"@
    }

    fn path(&self) -> (r: String) {
        "files/stat".to_owned()
    }
}

/// Query of `files/write`.
#[derive(Debug, Default)]
pub struct WriteQuery {
    /// Path of the file to write to.
    pub arg: String,
    /// Byte offset to begin writing at.
    pub offset: Option<i64>,
    /// Create the file if it does not exist.
    pub create: Option<bool>,
    /// Make parent directories as needed.
    pub parents: Option<bool>,
    /// Truncate the file to size zero before writing.
    pub truncate: Option<bool>,
    /// Maximum number of bytes to read.
    pub count: Option<i64>,
    /// Use raw blocks for newly created leaf nodes.
    pub raw_leaves: Option<bool>,
    /// CID version to use.
    pub cid_version: Option<i32>,
    /// Hash function to use.
    pub hash: Option<String>,
}

impl WriteQuery {
    /// A query for the given path, normalized to start with `/`, with
    /// `create` set.
    pub fn new_with_arg(arg: String) -> (r: Self)
        ensures
            r.arg@ == normalized_path(arg@),
            r.create == Some(true),
            r.offset is None,
            r.parents is None,
            r.truncate is None,
            r.count is None,
            r.raw_leaves is None,
            r.cid_version is None,
            r.hash is None,
    {
        WriteQuery {
            arg: normalize_arg(arg.as_str()),
            offset: None,
            create: Some(true),
            parents: None,
            truncate: None,
            count: None,
            raw_leaves: None,
            cid_version: None,
            hash: None,
        }
    }
}

impl QueryParam for WriteQuery {
    open spec fn query_pairs(&self) -> Seq<(Seq<char>, Seq<char>)> {
        let ps = Seq::<(Seq<char>, Seq<char>)>::empty();
        let ps = req_pair(ps, "arg"@, pe_chars(self.arg@));
        let ps = int64_pair(ps, "offset"@, self.offset);
        let ps = flag_pair(ps, "create"@, self.create);
        let ps = flag_pair(ps, "parents"@, self.parents);
        let ps = flag_pair(ps, "truncate"@, self.truncate);
        let ps = int64_pair(ps, "count"@, self.count);
        let ps = flag_pair(ps, "raw-leaves"@, self.raw_leaves);
        let ps = int32_pair(ps, "cid-version"@, self.cid_version);
        let ps = str_pair(ps, "hash"@, self.hash);
        ps
    }

    fn encode(&self) -> (r: String) {
        let mut out = String::new();
        let mut any = false;
        let ghost mut ps = Seq::<(Seq<char>, Seq<char>)>::empty();
        let v = percent_encode(self.arg.as_str());
        append_pair(&mut out, &mut any, "arg", v.as_str(), Ghost(ps));
        proof {
            ps = req_pair(ps, "arg"@, pe_chars(self.arg@));
        }
        if let Some(n) = self.offset {
            let v = i64_to_string(n);
            append_pair(&mut out, &mut any, "offset", v.as_str(), Ghost(ps));
        }
        proof {
            ps = int64_pair(ps, "offset"@, self.offset);
        }
        if let Some(b) = self.create {
            append_pair(&mut out, &mut any, "create", bool_str(b), Ghost(ps));
        }
        proof {
            ps = flag_pair(ps, "create"@, self.create);
        }
        if let Some(b) = self.parents {
            append_pair(&mut out, &mut any, "parents", bool_str(b), Ghost(ps));
        }
        proof {
            ps = flag_pair(ps, "parents"@, self.parents);
        }
        if let Some(b) = self.truncate {
            append_pair(&mut out, &mut any, "truncate", bool_str(b), Ghost(ps));
        }
        proof {
            ps = flag_pair(ps, "truncate"@, self.truncate);
        }
        if let Some(n) = self.count {
            let v = i64_to_string(n);
            append_pair(&mut out, &mut any, "count", v.as_str(), Ghost(ps));
        }
        proof {
            ps = int64_pair(ps, "count"@, self.count);
        }
        if let Some(b) = self.raw_leaves {
            append_pair(&mut out, &mut any, "raw-leaves", bool_str(b), Ghost(ps));
        }
        proof {
            ps = flag_pair(ps, "raw-leaves"@, self.raw_leaves);
        }
        if let Some(n) = self.cid_version {
            let v = i32_to_string(n);
            append_pair(&mut out, &mut any, "cid-version", v.as_str(), Ghost(ps));
        }
        proof {
            ps = int32_pair(ps, "cid-version"@, self.cid_version);
        }
        if let Some(s) = &self.hash {
            let v = percent_encode(s.as_str());
            append_pair(&mut out, &mut any, "hash", v.as_str(), Ghost(ps));
        }
        proof {
            ps = str_pair(ps, "hash"@, self.hash);
        }
        proof {
            assert(ps == self.query_pairs());
        }
        out
    }
}

/// A `files/write` request: the query plus the file payload.
pub struct WriteRequest {
    pub query: WriteQuery,
    pub bytes: Vec<u8>,
    pub filename: String,
}

impl Request for WriteRequest {
    open spec fn spec_path(&self) -> Seq<char> {
        "files/write"@
    }

    fn path(&self) -> (r: String) {
        "files/write".to_owned()
    }
}

impl WriteRequest {
    /// Describes the multipart body of this request: exactly one part named
    /// `data` carrying the bytes under the given filename.
    pub fn form(&self) -> (r: Result<MultipartBody, Error>)
        ensures
            (r matches Ok(
                MultipartBody::FilePart { name, filename, bytes },
            ) && name@ == "data"@ && filename@ == self.filename@ && bytes@ == self.bytes@),
    {
        Ok(
            MultipartBody::FilePart {
                name: "data".to_owned(),
                filename: self.filename.clone(),
                bytes: self.bytes.clone(),
            },
        )
    }
}

} // verus!
