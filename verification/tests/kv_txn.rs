use rhino::backend::{BackendCall, BackendError, BackendKeyValue, BackendReply};
use rhino::kv::{compact, delete_range, is_create, is_delete, is_update, put, resume, txn, KvResponse, KvStage, KvStep};
use rhino::message::{
    Compare, CompactionRequest, DeleteRangeRequest, PutRequest, RangeRequest, Request, RequestOp, Response,
    TargetUnion, TxnRequest,
};
use rhino::status::Code;

const MOD: i32 = 2;
const EQUAL: i32 = 0;

fn mod_equal(key: &[u8], rev: i64) -> Compare {
    Compare {
        result: EQUAL,
        target: MOD,
        key: key.to_vec(),
        range_end: vec![],
        target_union: Some(TargetUnion::ModRevision(rev)),
    }
}

fn put_op(key: &[u8], value: &[u8], lease: i64) -> RequestOp {
    RequestOp {
        request: Some(Request::RequestPut(PutRequest {
            key: key.to_vec(),
            value: value.to_vec(),
            lease,
            prev_kv: false,
            ignore_value: false,
            ignore_lease: false,
        })),
    }
}

fn range_op(key: &[u8]) -> RequestOp {
    RequestOp {
        request: Some(Request::RequestRange(RangeRequest {
            key: key.to_vec(),
            range_end: vec![],
            limit: 0,
            revision: 0,
            keys_only: false,
            count_only: false,
        })),
    }
}

fn delete_op(key: &[u8]) -> RequestOp {
    RequestOp {
        request: Some(Request::RequestDeleteRange(DeleteRangeRequest {
            key: key.to_vec(),
            range_end: vec![],
            prev_kv: false,
        })),
    }
}

fn create_txn(key: &[u8], value: &[u8], lease: i64) -> TxnRequest {
    TxnRequest { compare: vec![mod_equal(key, 0)], success: vec![put_op(key, value, lease)], failure: vec![] }
}

fn update_txn(key: &[u8], rev: i64, value: &[u8], lease: i64) -> TxnRequest {
    TxnRequest {
        compare: vec![mod_equal(key, rev)],
        success: vec![put_op(key, value, lease)],
        failure: vec![range_op(key)],
    }
}

fn bkv(key: &str, value: &[u8], create: i64, modr: i64) -> BackendKeyValue {
    BackendKeyValue {
        key: key.to_string(),
        create_revision: create,
        mod_revision: modr,
        version: 1,
        value: value.to_vec(),
        lease: 0,
    }
}

fn done_txn(step: KvStep) -> rhino::message::TxnResponse {
    match step {
        KvStep::Done(Ok(KvResponse::Txn(t))) => t,
        _ => panic!("expected a transaction answer"),
    }
}

#[test]
fn create_shape_is_recognised() {
    let t = create_txn(b"/test/a", b"v", 1);
    let p = is_create(&t).expect("create shape");
    assert_eq!(p.key, b"/test/a".to_vec());
    assert!(is_update(&t).is_none());
    assert!(is_delete(&t).is_none());
}

#[test]
fn create_shape_needs_revision_zero() {
    let mut t = create_txn(b"/test/a", b"v", 1);
    t.compare[0].target_union = Some(TargetUnion::ModRevision(3));
    assert!(is_create(&t).is_none());
}

#[test]
fn update_shape_is_recognised() {
    let t = update_txn(b"/test/a", 5, b"v2", 7);
    let (rev, key, value, lease) = is_update(&t).expect("update shape");
    assert_eq!(rev, 5);
    assert_eq!(key, b"/test/a");
    assert_eq!(value, b"v2");
    assert_eq!(lease, 7);
    assert!(is_create(&t).is_none());
    assert!(is_delete(&t).is_none());
}

#[test]
fn delete_shapes_are_recognised() {
    let unconditional = TxnRequest { compare: vec![], success: vec![range_op(b"/k"), delete_op(b"/k")], failure: vec![] };
    let (rev, key) = is_delete(&unconditional).expect("delete shape");
    assert_eq!(rev, 0);
    assert_eq!(key, b"/k");
    let conditional =
        TxnRequest { compare: vec![mod_equal(b"/k", 8)], success: vec![delete_op(b"/k")], failure: vec![range_op(b"/k")] };
    let (rev, key) = is_delete(&conditional).expect("delete shape");
    assert_eq!(rev, 8);
    assert_eq!(key, b"/k");
}

#[test]
fn unknown_target_does_not_match() {
    let mut t = update_txn(b"/test/a", 5, b"v2", 7);
    t.compare[0].target = 0;
    assert!(is_update(&t).is_none());
    match txn(&t) {
        KvStep::Done(Err(e)) => {
            assert_eq!(e.code, Code::InvalidArgument);
            assert_eq!(e.message, "unsupported transaction pattern");
        }
        _ => panic!("expected a refusal"),
    }
}

#[test]
fn create_calls_backend_create() {
    let step = txn(&create_txn(b"/test/a", b"b", 1));
    match step {
        KvStep::Call(KvStage::Create, BackendCall::Create { key, value, lease }) => {
            assert_eq!(key, "/test/a");
            assert_eq!(value, b"b".to_vec());
            assert_eq!(lease, 1);
        }
        _ => panic!("expected a create call"),
    }
}

#[test]
fn create_with_unsupported_options_is_refused() {
    let mut t = create_txn(b"/test/a", b"b", 1);
    if let Some(Request::RequestPut(p)) = &mut t.success[0].request {
        p.ignore_lease = true;
    }
    match txn(&t) {
        KvStep::Done(Err(e)) => {
            assert_eq!(e.code, Code::Unimplemented);
            assert_eq!(e.message, "ignoreLease is not implemented");
        }
        _ => panic!("expected a refusal"),
    }
    let mut t = create_txn(b"/test/a", b"b", 1);
    if let Some(Request::RequestPut(p)) = &mut t.success[0].request {
        p.ignore_value = true;
    }
    match txn(&t) {
        KvStep::Done(Err(e)) => assert_eq!(e.message, "ignoreValue is not implemented"),
        _ => panic!("expected a refusal"),
    }
    let mut t = create_txn(b"/test/a", b"b", 1);
    if let Some(Request::RequestPut(p)) = &mut t.success[0].request {
        p.prev_kv = true;
    }
    match txn(&t) {
        KvStep::Done(Err(e)) => assert_eq!(e.message, "prevKv is not implemented"),
        _ => panic!("expected a refusal"),
    }
}

#[test]
fn create_success_answers_put() {
    let t = done_txn(resume(KvStage::Create, BackendReply::Create(Ok(17))));
    assert!(t.succeeded);
    assert_eq!(t.header.unwrap().revision, 17);
    assert_eq!(t.responses.len(), 1);
    match &t.responses[0].response {
        Some(Response::ResponsePut(p)) => {
            assert_eq!(p.header.unwrap().revision, 17);
            assert!(p.prev_kv.is_none());
        }
        _ => panic!("expected a put answer"),
    }
}

#[test]
fn create_of_existing_key_fails_at_current_revision() {
    let step = resume(KvStage::Create, BackendReply::Create(Err(BackendError::KeyExists)));
    let stage = match step {
        KvStep::Call(stage, BackendCall::CurrentRevision) => stage,
        _ => panic!("expected a revision call"),
    };
    let t = done_txn(resume(stage, BackendReply::CurrentRevision(Ok(20))));
    assert!(!t.succeeded);
    assert!(t.responses.is_empty());
    assert_eq!(t.header.unwrap().revision, 20);
}

#[test]
fn update_against_revision_calls_update() {
    match txn(&update_txn(b"/test/a", 5, b"c", 0)) {
        KvStep::Call(KvStage::Update, BackendCall::Update { key, value, revision, lease }) => {
            assert_eq!(key, "/test/a");
            assert_eq!(value, b"c".to_vec());
            assert_eq!(revision, 5);
            assert_eq!(lease, 0);
        }
        _ => panic!("expected an update call"),
    }
}

#[test]
fn update_applied_or_not() {
    let t = done_txn(resume(KvStage::Update, BackendReply::Update(Ok((6, Some(bkv("/test/a", b"c", 5, 6)), true)))));
    assert!(t.succeeded);
    assert_eq!(t.header.unwrap().revision, 6);
    assert!(matches!(t.responses[0].response, Some(Response::ResponsePut(_))));
    let t = done_txn(resume(KvStage::Update, BackendReply::Update(Ok((6, Some(bkv("/test/a", b"d", 5, 6)), false)))));
    assert!(!t.succeeded);
    match &t.responses[0].response {
        Some(Response::ResponseRange(r)) => {
            assert_eq!(r.count, 1);
            assert_eq!(r.kvs[0].value, b"d".to_vec());
        }
        _ => panic!("expected a read answer"),
    }
}

#[test]
fn update_against_zero_creates_or_reads() {
    let step = txn(&update_txn(b"/test/a", 0, b"c", 2));
    let stage = match step {
        KvStep::Call(stage, BackendCall::Create { key, value, lease }) => {
            assert_eq!(key, "/test/a");
            assert_eq!(value, b"c".to_vec());
            assert_eq!(lease, 2);
            stage
        }
        _ => panic!("expected a create call"),
    };
    let stage = match resume(stage, BackendReply::Create(Err(BackendError::KeyExists))) {
        KvStep::Call(stage, BackendCall::Get { key, range_end, limit, revision, keys_only }) => {
            assert_eq!(key, "/test/a");
            assert_eq!(range_end, "");
            assert_eq!(limit, 1);
            assert_eq!(revision, 0);
            assert!(!keys_only);
            stage
        }
        _ => panic!("expected a get call"),
    };
    let t = done_txn(resume(stage, BackendReply::Get(Ok((9, None)))));
    assert!(!t.succeeded);
    assert_eq!(t.header.unwrap().revision, 9);
    match &t.responses[0].response {
        Some(Response::ResponseRange(r)) => {
            assert_eq!(r.count, 1);
            assert!(r.kvs.is_empty());
        }
        _ => panic!("expected a read answer"),
    }
    let t = done_txn(resume(KvStage::UpdateAsCreate { key: "/test/a".to_string() }, BackendReply::Create(Ok(4))));
    assert!(t.succeeded);
    assert_eq!(t.header.unwrap().revision, 4);
}

#[test]
fn delete_calls_and_answers() {
    let conditional =
        TxnRequest { compare: vec![mod_equal(b"/k", 8)], success: vec![delete_op(b"/k")], failure: vec![range_op(b"/k")] };
    match txn(&conditional) {
        KvStep::Call(KvStage::Delete, BackendCall::Delete { key, revision }) => {
            assert_eq!(key, "/k");
            assert_eq!(revision, 8);
        }
        _ => panic!("expected a delete call"),
    }
    let t = done_txn(resume(KvStage::Delete, BackendReply::Delete(Ok((9, Some(bkv("/k", b"b", 8, 8)), true)))));
    assert!(t.succeeded);
    match &t.responses[0].response {
        Some(Response::ResponseDeleteRange(d)) => {
            assert_eq!(d.deleted, 1);
            assert_eq!(d.prev_kvs[0].key, b"/k".to_vec());
            assert_eq!(d.header.unwrap().revision, 9);
        }
        _ => panic!("expected a delete answer"),
    }
    let t = done_txn(resume(KvStage::Delete, BackendReply::Delete(Ok((9, None, false)))));
    assert!(!t.succeeded);
    match &t.responses[0].response {
        Some(Response::ResponseRange(r)) => assert_eq!(r.count, 0),
        _ => panic!("expected a read answer"),
    }
}

#[test]
fn write_errors_map_to_statuses() {
    match resume(KvStage::Update, BackendReply::Update(Err(BackendError::KeyExists))) {
        KvStep::Done(Err(e)) => {
            assert_eq!(e.code, Code::FailedPrecondition);
            assert_eq!(e.message, "key exists");
        }
        _ => panic!("expected an error"),
    }
    match resume(KvStage::Create, BackendReply::Create(Err(BackendError::Internal("boom".to_string())))) {
        KvStep::Done(Err(e)) => {
            assert_eq!(e.code, Code::Internal);
            assert_eq!(e.message, "boom");
        }
        _ => panic!("expected an error"),
    }
}

#[test]
fn compact_calls_and_answers() {
    match compact(&CompactionRequest { revision: 33, physical: false }) {
        KvStep::Call(KvStage::Compact, BackendCall::Compact { revision }) => assert_eq!(revision, 33),
        _ => panic!("expected a compact call"),
    }
    match resume(KvStage::Compact, BackendReply::Compact(Ok(34))) {
        KvStep::Done(Ok(KvResponse::Compaction(c))) => assert_eq!(c.header.unwrap().revision, 34),
        _ => panic!("expected a compaction answer"),
    }
}

fn put_req(key: &[u8], value: &[u8], lease: i64) -> PutRequest {
    PutRequest { key: key.to_vec(), value: value.to_vec(), lease, prev_kv: false, ignore_value: false, ignore_lease: false }
}

#[test]
fn put_of_absent_key_creates_it() {
    // etcdctl put /myapp/config v
    let (stage, call) = match put(&put_req(b"/myapp/config", b"v", 0)) {
        KvStep::Call(stage, call) => (stage, call),
        _ => panic!("expected a read"),
    };
    match &call {
        BackendCall::Get { key, range_end, limit, revision, keys_only } => {
            assert_eq!(key, "/myapp/config");
            assert_eq!(range_end, "");
            assert_eq!(*limit, 1);
            assert_eq!(*revision, 0);
            assert!(*keys_only);
        }
        _ => panic!("expected a get call"),
    }
    let stage = match resume(stage, BackendReply::Get(Ok((3, None)))) {
        KvStep::Call(stage, BackendCall::Create { key, value, lease }) => {
            assert_eq!(key, "/myapp/config");
            assert_eq!(value, b"v".to_vec());
            assert_eq!(lease, 0);
            stage
        }
        _ => panic!("expected a create call"),
    };
    match resume(stage, BackendReply::Create(Ok(4))) {
        KvStep::Done(Ok(KvResponse::Put(p))) => {
            assert_eq!(p.header.unwrap().revision, 4);
            assert!(p.prev_kv.is_none());
        }
        _ => panic!("expected a put answer"),
    }
}

#[test]
fn put_of_present_key_updates_it() {
    let (stage, _) = match put(&put_req(b"/app/config/db_host", b"postgres-2.internal", 0)) {
        KvStep::Call(stage, call) => (stage, call),
        _ => panic!("expected a read"),
    };
    let stage = match resume(stage, BackendReply::Get(Ok((8, Some(bkv("/app/config/db_host", b"", 2, 7)))))) {
        KvStep::Call(stage, BackendCall::Update { key, value, revision, lease }) => {
            assert_eq!(key, "/app/config/db_host");
            assert_eq!(value, b"postgres-2.internal".to_vec());
            assert_eq!(revision, 7);
            assert_eq!(lease, 0);
            stage
        }
        _ => panic!("expected an update call"),
    };
    match resume(stage, BackendReply::Update(Ok((9, None, true)))) {
        KvStep::Done(Ok(KvResponse::Put(p))) => assert_eq!(p.header.unwrap().revision, 9),
        _ => panic!("expected a put answer"),
    }
}

#[test]
fn put_retries_after_losing_a_race() {
    let stage = KvStage::PutUpdate { key: "/k".to_string(), value: b"v".to_vec(), lease: 0 };
    assert!(matches!(
        resume(stage, BackendReply::Update(Ok((9, None, false)))),
        KvStep::Call(KvStage::PutRead { .. }, BackendCall::Get { .. })
    ));
    let stage = KvStage::PutCreate { key: "/k".to_string(), value: b"v".to_vec(), lease: 0 };
    assert!(matches!(
        resume(stage, BackendReply::Create(Err(BackendError::KeyExists))),
        KvStep::Call(KvStage::PutRead { .. }, BackendCall::Get { .. })
    ));
    let stage = KvStage::PutCreate { key: "/k".to_string(), value: b"v".to_vec(), lease: 0 };
    match resume(stage, BackendReply::Create(Err(BackendError::Internal("x".to_string())))) {
        KvStep::Done(Err(e)) => assert_eq!(e.code, Code::Internal),
        _ => panic!("expected an error"),
    }
}

#[test]
fn put_with_unsupported_options_is_refused() {
    let mut p = put_req(b"/k", b"v", 0);
    p.prev_kv = true;
    match put(&p) {
        KvStep::Done(Err(e)) => {
            assert_eq!(e.code, Code::Unimplemented);
            assert_eq!(e.message, "direct Put is not supported; use Txn");
        }
        _ => panic!("expected a refusal"),
    }
    let mut p = put_req(b"/k", b"v", 0);
    p.ignore_value = true;
    match put(&p) {
        KvStep::Done(Err(e)) => assert_eq!(e.message, "direct Put is not supported; use Txn"),
        _ => panic!("expected a refusal"),
    }
}

#[test]
fn delete_of_key_removes_it() {
    // etcdctl del /app/config/cache_ttl
    let d = DeleteRangeRequest { key: b"/app/config/cache_ttl".to_vec(), range_end: vec![], prev_kv: false };
    let stage = match delete_range(&d) {
        KvStep::Call(stage, BackendCall::Delete { key, revision }) => {
            assert_eq!(key, "/app/config/cache_ttl");
            assert_eq!(revision, 0);
            stage
        }
        _ => panic!("expected a delete call"),
    };
    match resume(stage, BackendReply::Delete(Ok((12, Some(bkv("/app/config/cache_ttl", b"300", 3, 3)), true)))) {
        KvStep::Done(Ok(KvResponse::DeleteRange(r))) => {
            assert_eq!(r.deleted, 1);
            assert!(r.prev_kvs.is_empty());
            assert_eq!(r.header.unwrap().revision, 12);
        }
        _ => panic!("expected a delete answer"),
    }
}

#[test]
fn delete_answers_previous_when_asked_and_nothing_when_absent() {
    let d = DeleteRangeRequest { key: b"/k".to_vec(), range_end: vec![], prev_kv: true };
    let (stage, _) = match delete_range(&d) {
        KvStep::Call(stage, call) => (stage, call),
        _ => panic!("expected a delete call"),
    };
    match resume(stage, BackendReply::Delete(Ok((5, Some(bkv("/k", b"b", 2, 4)), true)))) {
        KvStep::Done(Ok(KvResponse::DeleteRange(r))) => {
            assert_eq!(r.deleted, 1);
            assert_eq!(r.prev_kvs[0].value, b"b".to_vec());
        }
        _ => panic!("expected a delete answer"),
    }
    match resume(KvStage::DeleteRange { prev_kv: true }, BackendReply::Delete(Ok((5, None, false)))) {
        KvStep::Done(Ok(KvResponse::DeleteRange(r))) => {
            assert_eq!(r.deleted, 0);
            assert!(r.prev_kvs.is_empty());
        }
        _ => panic!("expected a delete answer"),
    }
}

#[test]
fn range_deletion_is_refused() {
    let d = DeleteRangeRequest { key: b"/a".to_vec(), range_end: b"/b".to_vec(), prev_kv: false };
    match delete_range(&d) {
        KvStep::Done(Err(e)) => {
            assert_eq!(e.code, Code::Unimplemented);
            assert_eq!(e.message, "direct DeleteRange is not supported; use Txn");
        }
        _ => panic!("expected a refusal"),
    }
}
