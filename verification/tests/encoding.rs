use ipfs_api::req::add::AddQuery;
use ipfs_api::req::dag::{InputCodec, PutQuery, StoreCodec};
use ipfs_api::req::files::{FlushQuery, MkdirQuery, StatQuery, WriteQuery};
use ipfs_api::request::QueryParam;

#[test]
fn add_query_all_unset_encodes_empty() {
    let q = AddQuery::default();
    assert_eq!(q.encode(), "");
}

#[test]
fn put_query_all_unset_encodes_empty() {
    let q = PutQuery::default();
    assert_eq!(q.encode(), "");
}

#[test]
fn flush_query_all_unset_encodes_empty() {
    let q = FlushQuery::default();
    assert_eq!(q.encode(), "");
}

#[test]
fn single_flag_encodes_as_one_pair() {
    let q = AddQuery { pin: Some(true), ..Default::default() };
    assert_eq!(q.encode(), "pin=true");
    let q = AddQuery { pin: Some(false), ..Default::default() };
    assert_eq!(q.encode(), "pin=false");
}

#[test]
fn raw_leaves_encodes_kebab_case() {
    let q = AddQuery { raw_leaves: Some(true), ..Default::default() };
    assert_eq!(q.encode(), "raw-leaves=true");
}

#[test]
fn wrap_with_directory_encodes_kebab_case() {
    let q = AddQuery { wrap_with_directory: Some(false), ..Default::default() };
    assert_eq!(q.encode(), "wrap-with-directory=false");
}

#[test]
fn integer_fields_encode_decimal() {
    let q = AddQuery { cid_version: Some(1), ..Default::default() };
    assert_eq!(q.encode(), "cid-version=1");
    let q = AddQuery { cid_version: Some(0), ..Default::default() };
    assert_eq!(q.encode(), "cid-version=0");
    let q = AddQuery { inline_limit: Some(-32), ..Default::default() };
    assert_eq!(q.encode(), "inline-limit=-32");
}

#[test]
fn fields_encode_in_declaration_order() {
    let q = AddQuery {
        quiet: Some(true),
        raw_leaves: Some(false),
        pin: Some(true),
        ..Default::default()
    };
    assert_eq!(q.encode(), "quiet=true&raw-leaves=false&pin=true");
}

#[test]
fn string_values_are_form_encoded() {
    let q = AddQuery { chunker: Some(String::from("size-262144")), ..Default::default() };
    assert_eq!(q.encode(), "chunker=size-262144");
    let q = AddQuery { chunker: Some(String::from("a b+c/d")), ..Default::default() };
    assert_eq!(q.encode(), "chunker=a+b%2Bc%2Fd");
    let q = AddQuery { to_files: Some(String::from("/dir/\u{e9}")), ..Default::default() };
    assert_eq!(q.encode(), "to-files=%2Fdir%2F%C3%A9");
}

#[test]
fn empty_string_value_encodes_as_bare_pair() {
    let q = FlushQuery { arg: Some(String::new()) };
    assert_eq!(q.encode(), "arg=");
}

#[test]
fn mkdir_query_new_with_arg_normalizes_path() {
    let q = MkdirQuery::new_with_arg(&String::from("photos"));
    assert_eq!(q.arg, "/photos");
    assert_eq!(q.parents, Some(true));
    assert_eq!(q.encode(), "arg=%2Fphotos&parents=true");
    let q = MkdirQuery::new_with_arg(&String::from("/photos"));
    assert_eq!(q.arg, "/photos");
}

#[test]
fn stat_query_new_with_arg_normalizes_path() {
    let q = StatQuery::new_with_arg(&String::from("photos"));
    assert_eq!(q.arg, "/photos");
    assert_eq!(q.encode(), "arg=%2Fphotos");
    let q = StatQuery::new_with_arg(&String::from("/x"));
    assert_eq!(q.encode(), "arg=%2Fx");
}

#[test]
fn write_query_new_with_arg_sets_create() {
    let q = WriteQuery::new_with_arg(String::from("notes.txt"));
    assert_eq!(q.arg, "/notes.txt");
    assert_eq!(q.create, Some(true));
    assert_eq!(q.encode(), "arg=%2Fnotes.txt&create=true");
}

#[test]
fn write_query_negative_offset_encodes() {
    let mut q = WriteQuery::new_with_arg(String::from("/f"));
    q.offset = Some(-5);
    assert_eq!(q.encode(), "arg=%2Ff&offset=-5&create=true");
    q.offset = Some(i64::MIN);
    assert_eq!(q.encode(), "arg=%2Ff&offset=-9223372036854775808&create=true");
}

#[test]
fn put_query_codecs_encode_wire_names() {
    let q = PutQuery {
        store_codec: Some(StoreCodec::DagCBOR),
        input_codec: Some(InputCodec::DagJSON),
        ..Default::default()
    };
    assert_eq!(q.encode(), "store-codec=dag-cbor&input-codec=dag-json");
}

#[test]
fn empty_path_gets_leading_slash() {
    let q = StatQuery::new_with_arg(&String::new());
    assert_eq!(q.arg, "/");
    assert_eq!(q.encode(), "arg=%2F");
}
