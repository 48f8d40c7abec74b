use mpsc_kv::kv::domain::{Request, Response, KV};
use mpsc_kv::kv::error::KvError;
use mpsc_kv::kv::memory::Memory;
use mpsc_kv::kv::request_handler::handle;
use mpsc_kv::kv::storage::Storage;

#[test]
fn command_test() {}

#[test]
fn domain_test() {}

#[test]
fn storage_test() {
    assert_eq!("v1", String::from("v1"));
}

fn common_operation_test(mut store: impl Storage) {
    // empty

    // get
    let res = store.get("k1");
    assert_eq!(Ok(vec![]), res);

    // mget
    let res = store.mget(&[String::from("k1"), String::from("k2")]);
    assert_eq!(Ok(vec![]), res);

    // store a single value

    // set
    let res = store.set(String::from("k1"), String::from("v1"));
    assert!(res.is_ok());

    // get
    let res = store.get("k1");
    assert!(res.is_ok());
    assert_eq!(vec![String::from("v1")], res.unwrap());

    // mget
    let res = store.mget(&[String::from("k1"), String::from("k2")]);
    assert!(res.is_ok());
    assert_eq!(vec![String::from("v1")], res.unwrap());

    // store several values

    // set
    let res = store.set(String::from("k2"), String::from("v2"));
    assert!(res.is_ok());

    // get
    let res = store.get("k1");
    assert!(res.is_ok());
    assert_eq!(vec![String::from("v1")], res.unwrap());
    let res = store.get("k2");
    assert!(res.is_ok());
    assert_eq!(vec![String::from("v2")], res.unwrap());

    // mget
    let res = store.mget(&[String::from("k1"), String::from("k2")]);
    assert!(res.is_ok());
    assert_eq!(vec![String::from("v1"), String::from("v2")], res.unwrap());

    // delete
    let res = store.del(&[String::from("k1"), String::from("k2")]);
    assert!(res.is_ok());

    let res = store.get("k1");
    assert_eq!(Ok(vec![]), res);

    // mget
    let res = store.mget(&[String::from("k1"), String::from("k2")]);
    assert_eq!(Ok(vec![]), res);
}

#[test]
fn test_memory_storage() {
    let store = Memory::new();
    common_operation_test(store)
}

#[test]
fn mget_skips_absent_keys_in_key_order() {
    let mut store = Memory::new();
    store.set(String::from("b"), String::from("2")).unwrap();
    store.set(String::from("d"), String::from("4")).unwrap();
    let res = store
        .mget(&[
            String::from("d"),
            String::from("a"),
            String::from("b"),
            String::from("c"),
        ])
        .unwrap();
    assert_eq!(vec![String::from("4"), String::from("2")], res);
}

#[test]
fn mset_stores_pairs_in_order_and_later_pairs_win() {
    let mut store = Memory::new();
    let kvs = vec![
        KV { key: String::from("k"), value: String::from("old") },
        KV { key: String::from("x"), value: String::from("1") },
        KV { key: String::from("k"), value: String::from("new") },
    ];
    store.mset(kvs).unwrap();
    assert_eq!(vec![String::from("new")], store.get("k").unwrap());
    assert_eq!(vec![String::from("1")], store.get("x").unwrap());
}

#[test]
fn handler_dispatches_every_request_kind() {
    let mut store = Memory::new();

    let res = handle(
        Request::Put { kv: KV { key: String::from("k1"), value: String::from("v1") } },
        &mut store,
    );
    assert_eq!(0, res.code);
    assert!(res.values.is_empty());

    let res = handle(Request::Get { key: String::from("k1") }, &mut store);
    assert_eq!(0, res.code);
    assert_eq!(vec![String::from("v1")], res.values);

    let res = handle(Request::Get { key: String::from("missing") }, &mut store);
    assert_eq!(0, res.code);
    assert!(res.values.is_empty());

    let res = handle(
        Request::MSet {
            kvs: vec![
                KV { key: String::from("k2"), value: String::from("v2") },
                KV { key: String::from("k3"), value: String::from("v3") },
            ],
        },
        &mut store,
    );
    assert_eq!(0, res.code);

    let res = handle(
        Request::MGet {
            keys: vec![String::from("k1"), String::from("k2"), String::from("k3")],
        },
        &mut store,
    );
    assert_eq!(0, res.code);
    assert_eq!(
        vec![String::from("v1"), String::from("v2"), String::from("v3")],
        res.values
    );

    let res = handle(Request::Del { keys: vec![String::from("k1")] }, &mut store);
    assert_eq!(0, res.code);

    let res = handle(Request::Get { key: String::from("k1") }, &mut store);
    assert_eq!(0, res.code);
    assert!(res.values.is_empty());
}

#[test]
fn error_codes_follow_the_taxonomy() {
    let res = Response::from_result(Err(KvError::NotFound(String::from("k1"))));
    assert_eq!(404, res.code);
    assert!(res.values.is_empty());

    let res = Response::from_result(Err(KvError::InvalidCommand));
    assert_eq!(400, res.code);
    assert_eq!("Cannot parse command.", res.message);

    let res = Response::from_result(Err(KvError::StorageError(
        "SET",
        String::from("k1"),
        String::from("disk full"),
    )));
    assert_eq!(500, res.code);

    let res = Response::from_result(Err(KvError::Internal(String::from("boom"))));
    assert_eq!(500, res.code);
}

#[test]
fn error_messages_name_the_offender() {
    assert_eq!(
        "Not found for k1",
        KvError::NotFound(String::from("k1")).message()
    );
    assert_eq!(
        "Cannot process command SET with key: k1. Error: disk full",
        KvError::StorageError("SET", String::from("k1"), String::from("disk full")).message()
    );
    assert_eq!(
        "Internal error: boom",
        KvError::Internal(String::from("boom")).message()
    );
}

#[test]
fn default_response_is_the_empty_success() {
    let res = Response::default();
    assert_eq!(0, res.code);
    assert!(res.message.is_empty());
    assert!(res.values.is_empty());
}
