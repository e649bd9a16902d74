use rhino::backend::{BackendCall, BackendError, BackendKeyValue, BackendReply};
use rhino::kv::{
    handle_range, resume, response_header, to_proto_kv, to_proto_kvs, with_trailing_slash, KvResponse, KvStage, KvStep,
};
use rhino::message::{RangeRequest, ResponseHeader};
use rhino::status::Code;

fn bkv(key: &str, value: &[u8], rev: i64) -> BackendKeyValue {
    BackendKeyValue {
        key: key.to_string(),
        create_revision: rev,
        mod_revision: rev,
        version: 1,
        value: value.to_vec(),
        lease: 0,
    }
}

fn range(key: &[u8], range_end: &[u8], limit: i64, revision: i64) -> RangeRequest {
    RangeRequest {
        key: key.to_vec(),
        range_end: range_end.to_vec(),
        limit,
        revision,
        keys_only: false,
        count_only: false,
    }
}

fn expect_call(step: KvStep) -> (KvStage, BackendCall) {
    match step {
        KvStep::Call(stage, call) => (stage, call),
        KvStep::Done(_) => panic!("expected a backend call"),
    }
}

#[test]
fn response_header_carries_revision() {
    let h = response_header(42);
    assert_eq!(h, Some(ResponseHeader { cluster_id: 0, member_id: 0, revision: 42, raft_term: 0 }));
}

#[test]
fn proto_kv_copies_fields_and_encodes_key() {
    let kv = BackendKeyValue {
        key: "/a/é".to_string(),
        create_revision: 3,
        mod_revision: 7,
        version: 2,
        value: b"v".to_vec(),
        lease: 9,
    };
    let p = to_proto_kv(&kv);
    assert_eq!(p.key, "/a/é".as_bytes().to_vec());
    assert_eq!(p.create_revision, 3);
    assert_eq!(p.mod_revision, 7);
    assert_eq!(p.version, 2);
    assert_eq!(p.value, b"v".to_vec());
    assert_eq!(p.lease, 9);
    assert_eq!(to_proto_kvs(Some(&kv)).len(), 1);
    assert!(to_proto_kvs(None).is_empty());
}

#[test]
fn single_key_read_calls_get() {
    let mut r = range(b"/test/a", b"", 5, 3);
    r.keys_only = true;
    let (stage, call) = expect_call(handle_range(&r));
    assert!(matches!(stage, KvStage::Get));
    match call {
        BackendCall::Get { key, range_end, limit, revision, keys_only } => {
            assert_eq!(key, "/test/a");
            assert_eq!(range_end, "");
            assert_eq!(limit, 5);
            assert_eq!(revision, 3);
            assert!(keys_only);
        }
        _ => panic!("expected get"),
    }
}

#[test]
fn invalid_utf8_key_is_read_lossily() {
    let r = range(&[b'/', 0xff, b'k'], b"", 0, 0);
    let (_, call) = expect_call(handle_range(&r));
    match call {
        BackendCall::Get { key, .. } => assert_eq!(key, "/\u{FFFD}k"),
        _ => panic!("expected get"),
    }
}

#[test]
fn get_reply_becomes_range_response() {
    let step = resume(KvStage::Get, BackendReply::Get(Ok((10, Some(bkv("/test/a", b"b", 10))))));
    match step {
        KvStep::Done(Ok(KvResponse::Range(r))) => {
            assert_eq!(r.header.unwrap().revision, 10);
            assert_eq!(r.kvs.len(), 1);
            assert_eq!(r.kvs[0].key, b"/test/a".to_vec());
            assert_eq!(r.kvs[0].value, b"b".to_vec());
            assert_eq!(r.count, 1);
            assert!(!r.more);
        }
        _ => panic!("expected a range response"),
    }
    let step = resume(KvStage::Get, BackendReply::Get(Ok((11, None))));
    match step {
        KvStep::Done(Ok(KvResponse::Range(r))) => {
            assert_eq!(r.count, 0);
            assert!(r.kvs.is_empty());
        }
        _ => panic!("expected a range response"),
    }
}

#[test]
fn prefix_read_lists_under_prefix() {
    // etcd's "--prefix" sends range_end = key with its last byte incremented.
    let r = range(b"/test/", b"/test0", 0, 0);
    let (stage, call) = expect_call(handle_range(&r));
    match (stage, call) {
        (
            KvStage::List { prefix, start_key, limit, revision },
            BackendCall::List { prefix: p2, start_key: s2, limit: l2, revision: r2, keys_only },
        ) => {
            assert_eq!(prefix, "/test/");
            assert_eq!(p2, "/test/");
            assert_eq!(start_key, "/test/");
            assert_eq!(s2, "/test/");
            assert_eq!(limit, 0);
            assert_eq!(l2, 0);
            assert_eq!(revision, 0);
            assert_eq!(r2, 0);
            assert!(!keys_only);
        }
        _ => panic!("expected list"),
    }
}

#[test]
fn prefix_gets_trailing_slash() {
    // range_end "/foo" lists "/fon" + "/".
    let r = range(b"/fo", b"/foo", 0, -4);
    let (_, call) = expect_call(handle_range(&r));
    match call {
        BackendCall::List { prefix, revision, .. } => {
            assert_eq!(prefix, "/fon/");
            assert_eq!(revision, 0);
        }
        _ => panic!("expected list"),
    }
}

#[test]
fn prefix_byte_zero_wraps() {
    let r = range(b"a", &[b'a', 0], 0, 0);
    let (_, call) = expect_call(handle_range(&r));
    match call {
        BackendCall::List { prefix, .. } => assert_eq!(prefix, "a\u{FFFD}/"),
        _ => panic!("expected list"),
    }
}

#[test]
fn limited_list_asks_for_one_more() {
    let r = range(b"/test/", b"/test0", 4, 7);
    let (_, call) = expect_call(handle_range(&r));
    match call {
        BackendCall::List { limit, revision, .. } => {
            assert_eq!(limit, 5);
            assert_eq!(revision, 7);
        }
        _ => panic!("expected list"),
    }
}

#[test]
fn count_only_calls_count() {
    let mut r = range(b"/test/", b"/test0", 0, 0);
    r.count_only = true;
    let (stage, call) = expect_call(handle_range(&r));
    assert!(matches!(stage, KvStage::CountOnly));
    assert!(matches!(call, BackendCall::Count { revision: 0, .. }));
    match resume(stage, BackendReply::Count(Ok((12, 4)))) {
        KvStep::Done(Ok(KvResponse::Range(resp))) => {
            assert_eq!(resp.count, 4);
            assert!(resp.kvs.is_empty());
            assert_eq!(resp.header.unwrap().revision, 12);
        }
        _ => panic!("expected a range response"),
    }
}

fn list_stage(limit: i64, revision: i64) -> KvStage {
    KvStage::List { prefix: "/test/".to_string(), start_key: "/test/".to_string(), limit, revision }
}

#[test]
fn list_within_limit_answers_all() {
    let kvs = vec![bkv("/test/a", b"", 5), bkv("/test/b", b"", 6)];
    match resume(list_stage(2, 0), BackendReply::List(Ok((9, kvs)))) {
        KvStep::Done(Ok(KvResponse::Range(r))) => {
            assert_eq!(r.kvs.len(), 2);
            assert_eq!(r.count, 2);
            assert!(!r.more);
            assert_eq!(r.header.unwrap().revision, 9);
        }
        _ => panic!("expected a range response"),
    }
}

#[test]
fn list_over_limit_is_cut_and_counted() {
    let kvs = vec![bkv("/test/a", b"", 5), bkv("/test/b", b"", 6), bkv("/test/c", b"", 7)];
    let (stage, call) = expect_call(resume(list_stage(2, 0), BackendReply::List(Ok((9, kvs)))));
    match &call {
        BackendCall::Count { prefix, revision, .. } => {
            assert_eq!(prefix, "/test/");
            assert_eq!(*revision, 9);
        }
        _ => panic!("expected count"),
    }
    match resume(stage, BackendReply::Count(Ok((9, 3)))) {
        KvStep::Done(Ok(KvResponse::Range(r))) => {
            assert_eq!(r.kvs.len(), 2);
            assert_eq!(r.kvs[1].key, b"/test/b".to_vec());
            assert_eq!(r.count, 3);
            assert!(r.more);
            assert_eq!(r.header.unwrap().revision, 9);
        }
        _ => panic!("expected a range response"),
    }
}

#[test]
fn list_over_limit_counts_at_requested_revision() {
    let kvs = vec![bkv("/test/a", b"", 5), bkv("/test/b", b"", 6)];
    let (_, call) = expect_call(resume(list_stage(1, 6), BackendReply::List(Ok((9, kvs)))));
    assert!(matches!(call, BackendCall::Count { revision: 6, .. }));
}

#[test]
fn read_errors_map_to_statuses() {
    match resume(KvStage::Get, BackendReply::Get(Err(BackendError::Compacted))) {
        KvStep::Done(Err(e)) => {
            assert_eq!(e.code, Code::OutOfRange);
            assert_eq!(e.message, "required revision has been compacted");
        }
        _ => panic!("expected an error"),
    }
    match resume(list_stage(0, 0), BackendReply::List(Err(BackendError::FutureRev))) {
        KvStep::Done(Err(e)) => assert_eq!(e.code, Code::OutOfRange),
        _ => panic!("expected an error"),
    }
    match resume(KvStage::CountOnly, BackendReply::Count(Err(BackendError::Internal("disk".to_string())))) {
        KvStep::Done(Err(e)) => {
            assert_eq!(e.code, Code::Internal);
            assert_eq!(e.message, "disk");
        }
        _ => panic!("expected an error"),
    }
}

#[test]
fn etcd_prefix_read_lists_the_key() {
    // etcdctl get /myapp/ --prefix
    let r = range(b"/myapp/", b"/myapp0", 0, 0);
    let (_, call) = expect_call(handle_range(&r));
    match call {
        BackendCall::List { prefix, start_key, .. } => {
            assert_eq!(prefix, "/myapp/");
            assert_eq!(start_key, "/myapp/");
        }
        _ => panic!("expected list"),
    }
    // A prefix without a trailing slash gets one.
    let r = range(b"/app/config/db", b"/app/config/dc", 0, 0);
    let (_, call) = expect_call(handle_range(&r));
    match call {
        BackendCall::List { prefix, .. } => assert_eq!(prefix, "/app/config/db/"),
        _ => panic!("expected list"),
    }
}

#[test]
fn all_keys_range_end_lists_under_root() {
    let r = range(b"/", &[0], 0, 0);
    let (_, call) = expect_call(handle_range(&r));
    match call {
        BackendCall::List { prefix, .. } => assert_eq!(prefix, "/"),
        _ => panic!("expected list"),
    }
}

#[test]
fn trailing_slash_is_added_once() {
    assert_eq!(with_trailing_slash("/a".to_string()), "/a/");
    assert_eq!(with_trailing_slash("/a/".to_string()), "/a/");
    assert_eq!(with_trailing_slash(String::new()), "/");
    assert_eq!(with_trailing_slash("\u{FFFD}".to_string()), "\u{FFFD}/");
}

#[test]
fn range_dispatch_by_range_end() {
    let (stage, _) = expect_call(handle_range(&range(b"/k", b"", 0, 0)));
    assert!(matches!(stage, KvStage::Get));
    let (stage, _) = expect_call(handle_range(&range(b"/k/", b"/k0", 0, 0)));
    assert!(matches!(stage, KvStage::List { .. }));
}
