use ipfs_api::error::Error;
use ipfs_api::errors::AppError;
use ipfs_api::domain::file::{generate_url_by_hash, IPFSFile, IPFSFileStat};
use ipfs_api::domain::token::Token;
use ipfs_api::resp::add::AddResponse;
use ipfs_api::resp::dag::PutResponse;
use ipfs_api::resp::files::{FlushResponse, LsResponse, StatResponse};
use ipfs_api::response::EmptyResponse;

#[test]
fn add_response_round_trip() {
    let resp = AddResponse::parse("{\"Hash\": \"QmYwAPJzv5CZsnA\", \"Name\": \"f.txt\"}").unwrap();
    assert_eq!(resp.hash.as_deref(), Some("QmYwAPJzv5CZsnA"));
    assert_eq!(resp.name.as_deref(), Some("f.txt"));
    assert!(resp.bytes.is_none());
    assert!(resp.size.is_none());
}

#[test]
fn add_response_full_fields() {
    let resp =
        AddResponse::parse("{\"Bytes\": -1, \"Hash\": \"Qm\", \"Name\": \"n\", \"Size\": \"12\"}")
            .unwrap();
    assert_eq!(resp.bytes, Some(-1));
    assert_eq!(resp.size.as_deref(), Some("12"));
}

#[test]
fn add_response_malformed_body_is_an_error() {
    assert_eq!(
        AddResponse::parse("not json").unwrap_err(),
        Error::ResponseBodySerializeError
    );
}

#[test]
fn add_response_non_object_is_an_error() {
    assert_eq!(AddResponse::parse("[1,2]").unwrap_err(), Error::ResponseBodySerializeError);
}

#[test]
fn add_response_wrong_field_type_is_an_error() {
    assert_eq!(
        AddResponse::parse("{\"Hash\": 5}").unwrap_err(),
        Error::ResponseBodySerializeError
    );
}

#[test]
fn add_response_ignores_unknown_fields() {
    let resp = AddResponse::parse("{\"Hash\": \"Qm\", \"Extra\": [1,2,3]}").unwrap();
    assert_eq!(resp.hash.as_deref(), Some("Qm"));
}

#[test]
fn flush_response_requires_cid() {
    let resp = FlushResponse::parse("{\"Cid\": \"bafybeia\"}").unwrap();
    assert_eq!(resp.cid, "bafybeia");
    assert_eq!(FlushResponse::parse("{}").unwrap_err(), Error::ResponseBodySerializeError);
    assert_eq!(
        FlushResponse::parse("{\"Cid\": 7}").unwrap_err(),
        Error::ResponseBodySerializeError
    );
}

#[test]
fn put_response_reads_cid_wrapper() {
    let resp = PutResponse::parse("{\"Cid\": {\"/\": \"bafyreig\"}}").unwrap();
    assert_eq!(resp.cid.slash, "bafyreig");
    assert_eq!(
        PutResponse::parse("{\"Cid\": \"bafyreig\"}").unwrap_err(),
        Error::ResponseBodySerializeError
    );
    assert_eq!(
        PutResponse::parse("{}").unwrap_err(),
        Error::ResponseBodySerializeError
    );
}

#[test]
fn stat_response_all_fields() {
    let body = "{\"Blocks\": 2, \"CumulativeSize\": 18446744073709551615, \"Hash\": \"Qm\", \
                \"Local\": true, \"Size\": 10, \"SizeLocal\": 9, \"Type\": \"directory\", \
                \"WithLocality\": false}";
    let resp = StatResponse::parse(body).unwrap();
    assert_eq!(resp.blocks, Some(2));
    assert_eq!(resp.cumulative_size, Some(u64::MAX));
    assert_eq!(resp.hash.as_deref(), Some("Qm"));
    assert_eq!(resp.local, Some(true));
    assert_eq!(resp.size, Some(10));
    assert_eq!(resp.size_local, Some(9));
    assert_eq!(resp.typ.as_deref(), Some("directory"));
    assert_eq!(resp.with_locality, Some(false));
}

#[test]
fn stat_response_partial_body_parses() {
    let resp = StatResponse::parse("{}").unwrap();
    assert!(resp.hash.is_none());
    assert!(resp.blocks.is_none());
}

#[test]
fn stat_response_out_of_range_number_is_an_error() {
    assert_eq!(
        StatResponse::parse("{\"CumulativeSize\": -1}").unwrap_err(),
        Error::ResponseBodySerializeError
    );
    assert_eq!(
        StatResponse::parse("{\"Blocks\": 4294967296}").unwrap_err(),
        Error::ResponseBodySerializeError
    );
}

#[test]
fn ls_response_reads_entries() {
    let body = "{\"Entries\": [{\"Hash\": \"Qm1\", \"Name\": \"a\", \"Size\": 3, \"Type\": 0}, \
                {\"Hash\": \"Qm2\", \"Name\": \"b\", \"Size\": 0, \"Type\": 1}]}";
    let resp = LsResponse::parse(body).unwrap();
    assert_eq!(resp.entries.len(), 2);
    assert_eq!(resp.entries[0].hash, "Qm1");
    assert_eq!(resp.entries[1].name, "b");
    assert_eq!(resp.entries[1].typ, 1);
}

#[test]
fn ls_response_bad_entry_is_an_error() {
    let body = "{\"Entries\": [{\"Hash\": \"Qm1\", \"Name\": \"a\", \"Size\": 3, \"Type\": 0}, \
                {\"Name\": \"b\"}]}";
    assert_eq!(LsResponse::parse(body).unwrap_err(), Error::ResponseBodySerializeError);
}

#[test]
fn empty_response_accepts_any_body() {
    assert!(EmptyResponse::parse("").is_ok());
    assert!(EmptyResponse::parse("not json at all").is_ok());
    let long = "x".repeat(1 << 16);
    assert!(EmptyResponse::parse(&long).is_ok());
}

#[test]
fn gateway_url_prefixes_the_hash() {
    let url = generate_url_by_hash(&String::from("QmX"));
    assert_eq!(url, "http://127.0.0.1:8080/ipfs/QmX");
}

#[test]
fn ipfs_file_new_fills_url() {
    let f = IPFSFile::new(&String::from("QmX"));
    assert_eq!(f.hash, "QmX");
    assert_eq!(f.url, "http://127.0.0.1:8080/ipfs/QmX");
}

#[test]
fn ipfs_file_stat_new_keeps_name() {
    let f = IPFSFileStat::new(&String::from("dir"), &String::from("QmY"));
    assert_eq!(f.name, "dir");
    assert_eq!(f.hash, "QmY");
    assert_eq!(f.url, "http://127.0.0.1:8080/ipfs/QmY");
}

#[test]
fn upload_result_needs_a_hash() {
    let resp = AddResponse::parse("{\"Hash\": \"QmZ\"}").unwrap();
    let file = IPFSFile::from_add_response(&resp).unwrap();
    assert_eq!(file.hash, "QmZ");
    assert_eq!(file.url, "http://127.0.0.1:8080/ipfs/QmZ");
    let resp = AddResponse::parse("{\"Name\": \"f\"}").unwrap();
    assert_eq!(IPFSFile::from_add_response(&resp).unwrap_err(), AppError::HashMismatch);
}

#[test]
fn mkdir_result_needs_a_hash() {
    let resp = StatResponse::parse("{\"Hash\": \"QmD\"}").unwrap();
    let stat = IPFSFileStat::from_stat_response(&String::from("dir"), &resp).unwrap();
    assert_eq!(stat.name, "dir");
    assert_eq!(stat.url, "http://127.0.0.1:8080/ipfs/QmD");
    let resp = StatResponse::parse("{}").unwrap();
    assert_eq!(
        IPFSFileStat::from_stat_response(&String::from("dir"), &resp).unwrap_err(),
        AppError::HashMismatch
    );
}

#[test]
fn bearer_token_parses() {
    let t = Token::parse_from_access_token(String::from("Bearer abc.def")).unwrap();
    assert_eq!(t.secret, "abc.def");
    assert_eq!(t.token_type, "Bearer");
}

#[test]
fn non_bearer_token_is_invalid() {
    assert_eq!(
        Token::parse_from_access_token(String::from("Basic abc")).unwrap_err(),
        AppError::InvalidToken
    );
    assert_eq!(
        Token::parse_from_access_token(String::new()).unwrap_err(),
        AppError::InvalidToken
    );
    assert_eq!(
        Token::parse_from_access_token(String::from("bearer abc")).unwrap_err(),
        AppError::InvalidToken
    );
}

#[test]
fn bearer_prefix_alone_gives_empty_secret() {
    let t = Token::parse_from_access_token(String::from("Bearer ")).unwrap();
    assert_eq!(t.secret, "");
}
