//! Gateway URLs for content stored on the local IPFS node.

use vstd::prelude::*;

use crate::errors::AppError;
use crate::resp::add::AddResponse;
use crate::resp::files::StatResponse;

verus! {

/// The gateway URL under which a content hash can be fetched.
pub open spec fn url_of_hash(hash: Seq<char>) -> Seq<char> {
    "http://127.0.0.1:8080/ipfs/"@ + hash
}

/// Builds the local gateway URL for a content hash.
pub fn generate_url_by_hash(hash: &String) -> (r: String)
    ensures
        r@ == url_of_hash(hash@),
{
    let mut s = String::new();
    s.append("http://127.0.0.1:8080/ipfs/");
    s.append(hash.as_str());
    s
}

/// A file stored on the node: its content hash and its gateway URL.
#[derive(Debug)]
pub struct IPFSFile {
    pub url: String,
    pub hash: String,
}

impl IPFSFile {
    /// A file record for the given content hash.
    pub fn new(hash: &String) -> (r: Self)
        ensures
            r.hash@ == hash@,
            r.url@ == url_of_hash(hash@),
    {
        IPFSFile { hash: hash.clone(), url: generate_url_by_hash(hash) }
    }
}

impl IPFSFile {
    /// What an upload yields: the file record when the `add` response
    /// carried a content hash, [`AppError::HashMismatch`] when it did not.
    pub fn from_add_response(resp: &AddResponse) -> (r: Result<IPFSFile, AppError>)
        ensures
            r is Ok <==> resp.hash is Some,
            r is Ok ==> r->Ok_0.hash@ == resp.hash->0@,
            r is Ok ==> r->Ok_0.url@ == url_of_hash(resp.hash->0@),
            r is Err ==> r->Err_0 == AppError::HashMismatch,
    {
        match &resp.hash {
            Some(hash) => Ok(IPFSFile::new(hash)),
            None => Err(AppError::HashMismatch),
        }
    }
}

/// A named directory or file stored on the node.
#[derive(Debug)]
pub struct IPFSFileStat {
    pub name: String,
    pub hash: String,
    pub url: String,
}

impl IPFSFileStat {
    /// A record for the given name and content hash.
    pub fn new(name: &String, hash: &String) -> (r: Self)
        ensures
            r.name@ == name@,
            r.hash@ == hash@,
            r.url@ == url_of_hash(hash@),
    {
        IPFSFileStat { name: name.clone(), hash: hash.clone(), url: generate_url_by_hash(hash) }
    }

    /// What a directory creation yields: the stat record when the
    /// `files/stat` response carried the directory's hash,
    /// [`AppError::HashMismatch`] when it did not.
    pub fn from_stat_response(name: &String, resp: &StatResponse) -> (r: Result<
        IPFSFileStat,
        AppError,
    >)
        ensures
            r is Ok <==> resp.hash is Some,
            r is Ok ==> r->Ok_0.name@ == name@,
            r is Ok ==> r->Ok_0.hash@ == resp.hash->0@,
            r is Ok ==> r->Ok_0.url@ == url_of_hash(resp.hash->0@),
            r is Err ==> r->Err_0 == AppError::HashMismatch,
    {
        match &resp.hash {
            Some(hash) => Ok(IPFSFileStat::new(name, hash)),
            None => Err(AppError::HashMismatch),
        }
    }
}

} // verus!
