use ipfs_api::client::{
    classify_send_outcome, prepare_add, prepare_dag_put, prepare_files_mkdir,
};
use ipfs_api::error::Error;
use ipfs_api::req::add::{AddQuery, AddRequest};
use ipfs_api::req::dag::{PutQuery, PutRequest};
use ipfs_api::req::files::{MkdirQuery, MkdirRequest, WriteQuery, WriteRequest};
use ipfs_api::request::{MultipartBody, QueryParam, Request, RequestUrl};

fn base() -> url::Url {
    url::Url::parse("http://127.0.0.1:5001/api/v0").unwrap()
}

#[test]
fn paths_match_the_catalog() {
    let add = AddRequest::new(AddQuery::default());
    assert_eq!(add.path(), "add");
    let mkdir = MkdirRequest { query: MkdirQuery::new_with_arg(&String::from("d")) };
    assert_eq!(mkdir.path(), "files/mkdir");
    let write = WriteRequest {
        query: WriteQuery::new_with_arg(String::from("f")),
        bytes: vec![],
        filename: String::from("f"),
    };
    assert_eq!(write.path(), "files/write");
}

#[test]
fn url_composition_is_deterministic() {
    let b = base();
    let q = MkdirQuery::new_with_arg(&String::from("photos"));
    let u1 = RequestUrl::new(&b, "files/mkdir", &q).plain_url().unwrap();
    let u2 = RequestUrl::new(&b, "files/mkdir", &q).plain_url().unwrap();
    assert_eq!(u1, u2);
    assert_eq!(u1, "http://127.0.0.1:5001/api/v0/files/mkdir?arg=%2Fphotos&parents=true");
}

#[test]
fn changing_a_query_field_keeps_the_path() {
    let b = base();
    let mut q = MkdirQuery::new_with_arg(&String::from("photos"));
    let u1 = RequestUrl::new(&b, "files/mkdir", &q).plain_url().unwrap();
    q.cid_version = Some(1);
    let u2 = RequestUrl::new(&b, "files/mkdir", &q).plain_url().unwrap();
    let cut = "http://127.0.0.1:5001/api/v0/files/mkdir?".len();
    assert_eq!(&u1[..cut], &u2[..cut]);
    assert_eq!(&u2[cut..], "arg=%2Fphotos&parents=true&cid-version=1");
}

#[test]
fn changing_a_query_field_keeps_parsed_components() {
    let b = base();
    let mut q = MkdirQuery::new_with_arg(&String::from("photos"));
    let u1 = prepare_files_mkdir(&b, &MkdirRequest { query: q }).unwrap().url;
    q = MkdirQuery::new_with_arg(&String::from("photos"));
    q.cid_version = Some(1);
    let u2 = prepare_files_mkdir(&b, &MkdirRequest { query: q }).unwrap().url;
    assert_eq!(u1.scheme(), u2.scheme());
    assert_eq!(u1.host_str(), u2.host_str());
    assert_eq!(u1.port(), u2.port());
    assert_eq!(u1.path(), u2.path());
    assert_ne!(u1.query(), u2.query());
}

#[test]
fn url_validation_normalizes_dot_segments() {
    let b = base();
    let q = ipfs_api::req::files::FlushQuery::default();
    let u = RequestUrl::new(&b, "a/../files/flush", &q).plain_url().unwrap();
    assert_eq!(u, "http://127.0.0.1:5001/api/v0/files/flush?");
}

#[test]
fn dag_put_serialization_sorts_object_keys() {
    let object: serde_json::Value = serde_json::from_str("{\"b\":2,\"a\":1}").unwrap();
    let req = PutRequest { query: PutQuery::default(), object_data: object };
    match req.form().unwrap() {
        MultipartBody::TextPart { text, .. } => assert_eq!(text, "{\"a\":1,\"b\":2}"),
        MultipartBody::FilePart { .. } => panic!("expected a text part"),
    }
}

#[test]
fn add_form_requires_bytes() {
    let req = AddRequest::new(AddQuery::default());
    assert_eq!(req.form().unwrap_err(), Error::NoFileBytes);
}

#[test]
fn add_form_requires_filename() {
    let req = AddRequest {
        query: AddQuery::default(),
        filename: None,
        bytes: Some(vec![1, 2, 3]),
    };
    assert_eq!(req.form().unwrap_err(), Error::NoFilename);
}

#[test]
fn add_form_bytes_without_filename_still_fails() {
    let req = AddRequest {
        query: AddQuery::default(),
        filename: Some(String::from("f.txt")),
        bytes: None,
    };
    assert_eq!(req.form().unwrap_err(), Error::NoFileBytes);
}

#[test]
fn add_form_builds_one_file_part() {
    let req = AddRequest::new_with_file(String::from("f.txt"), vec![9, 8, 7]);
    match req.form().unwrap() {
        MultipartBody::FilePart { name, filename, bytes } => {
            assert_eq!(name, "file");
            assert_eq!(filename, "f.txt");
            assert_eq!(bytes, vec![9, 8, 7]);
        },
        MultipartBody::TextPart { .. } => panic!("expected a file part"),
    }
}

#[test]
fn write_form_builds_data_part() {
    let req = WriteRequest {
        query: WriteQuery::new_with_arg(String::from("/f")),
        bytes: vec![1],
        filename: String::from("f"),
    };
    match req.form().unwrap() {
        MultipartBody::FilePart { name, filename, bytes } => {
            assert_eq!(name, "data");
            assert_eq!(filename, "f");
            assert_eq!(bytes, vec![1]);
        },
        MultipartBody::TextPart { .. } => panic!("expected a file part"),
    }
}

#[test]
fn dag_put_form_serializes_the_object() {
    let object: serde_json::Value = serde_json::from_str("{\"a\":1}").unwrap();
    let req = PutRequest { query: PutQuery::default(), object_data: object };
    match req.form().unwrap() {
        MultipartBody::TextPart { name, text } => {
            assert_eq!(name, "object data");
            assert_eq!(text, "{\"a\":1}");
        },
        MultipartBody::FilePart { .. } => panic!("expected a text part"),
    }
}

#[test]
fn prepare_add_builds_url_and_part() {
    let b = base();
    let mut query = AddQuery::default();
    query.pin = Some(true);
    let req = AddRequest::new_with_query_and_file(query, String::from("f.txt"), vec![1]);
    let prepared = prepare_add(&b, &req).unwrap();
    assert_eq!(prepared.url.as_str(), "http://127.0.0.1:5001/api/v0/add?pin=true");
    assert!(prepared.body.is_some());
}

#[test]
fn prepare_add_without_payload_fails() {
    let b = base();
    let req = AddRequest::new(AddQuery::default());
    assert_eq!(prepare_add(&b, &req).unwrap_err(), Error::NoFileBytes);
}

#[test]
fn prepare_mkdir_has_no_body() {
    let b = base();
    let req = MkdirRequest { query: MkdirQuery::new_with_arg(&String::from("d")) };
    let prepared = prepare_files_mkdir(&b, &req).unwrap();
    assert_eq!(
        prepared.url.as_str(),
        "http://127.0.0.1:5001/api/v0/files/mkdir?arg=%2Fd&parents=true"
    );
    assert!(prepared.body.is_none());
}

#[test]
fn prepare_dag_put_builds_text_part() {
    let b = base();
    let object: serde_json::Value = serde_json::from_str("{\"k\":\"v\"}").unwrap();
    let req = PutRequest { query: PutQuery::default(), object_data: object };
    let prepared = prepare_dag_put(&b, &req).unwrap();
    assert_eq!(prepared.url.as_str(), "http://127.0.0.1:5001/api/v0/dag/put?");
    match prepared.body.unwrap() {
        MultipartBody::TextPart { name, text } => {
            assert_eq!(name, "object data");
            assert_eq!(text, "{\"k\":\"v\"}");
        },
        MultipartBody::FilePart { .. } => panic!("expected a text part"),
    }
}

#[test]
fn transport_failure_is_request_error() {
    assert_eq!(classify_send_outcome(None).unwrap_err(), Error::RequestError);
}

#[test]
fn http_500_is_request_failed() {
    assert_eq!(classify_send_outcome(Some(500)).unwrap_err(), Error::RequestFailed);
    assert_ne!(
        classify_send_outcome(Some(500)).unwrap_err(),
        classify_send_outcome(None).unwrap_err()
    );
}

#[test]
fn success_statuses_pass_classification() {
    assert_eq!(classify_send_outcome(Some(200)).unwrap(), 200);
    assert_eq!(classify_send_outcome(Some(299)).unwrap(), 299);
    assert_eq!(classify_send_outcome(Some(199)).unwrap_err(), Error::RequestFailed);
    assert_eq!(classify_send_outcome(Some(300)).unwrap_err(), Error::RequestFailed);
    assert_eq!(classify_send_outcome(Some(404)).unwrap_err(), Error::RequestFailed);
}

#[test]
fn error_messages_name_their_kind() {
    assert_eq!(Error::UrlParse.message(), "request url parse error");
    assert_eq!(Error::RequestFailed.message(), "request failed");
    assert_eq!(Error::RequestError.message(), "request error");
    assert_eq!(Error::SerializeObject.message(), "serialize object error");
}
