use rhino::backend::{BackendError, BackendEvent, BackendKeyValue};
use rhino::cluster::{member_add, member_list, member_promote, member_remove, member_update};
use rhino::lease::{lease_grant, lease_keep_alive, lease_leases, lease_revoke, lease_time_to_live};
use rhino::lease::{LeaseGrantRequest, LeaseKeepAliveRequest, LeaseRevokeRequest, LeaseTimeToLiveRequest};
use rhino::maintenance::{alarm, defragment, downgrade, hash, hash_kv, move_leader, snapshot, status};
use rhino::status::Code;
use rhino::watch::{
    progress_response, RequestUnion, WatchAction, WatchCancelRequest,
    WatchCreateRequest, WatchIdCounter, WatchProgressRequest, WatchRequest, WatchSession, EVENT_DELETE, EVENT_PUT,
};
use rhino::{KvBridge, RhinoServer};
use std::sync::Arc;

#[test]
fn lease_grant_echoes_request() {
    let r = lease_grant(&LeaseGrantRequest { ttl: 60, id: 77 });
    assert_eq!(r.id, 77);
    assert_eq!(r.ttl, 60);
    assert!(r.error.is_empty());
    assert_eq!(r.header.unwrap().revision, 0);
}

#[test]
fn lease_answers_are_fixed() {
    assert_eq!(lease_revoke(&LeaseRevokeRequest { id: 1 }).header.unwrap().revision, 0);
    let k = lease_keep_alive(&LeaseKeepAliveRequest { id: 5 });
    assert_eq!(k.id, 5);
    assert_eq!(k.ttl, 30);
    let t = lease_time_to_live(&LeaseTimeToLiveRequest { id: 5, keys: true });
    assert_eq!(t.id, 5);
    assert_eq!(t.ttl, 30);
    assert_eq!(t.granted_ttl, 30);
    assert!(t.keys.is_empty());
    assert!(lease_leases().leases.is_empty());
}

#[test]
fn status_reports_size_and_version() {
    let s = status(Ok(4096)).unwrap();
    assert_eq!(s.db_size, 4096);
    assert_eq!(s.version, "3.5.13");
    let e = status(Err(BackendError::Internal("gone".to_string()))).unwrap_err();
    assert_eq!(e.code, Code::Internal);
    assert_eq!(e.message, "gone");
    let e = status(Err(BackendError::KeyExists)).unwrap_err();
    assert_eq!(e.code, Code::Internal);
    assert_eq!(e.message, "key exists");
}

#[test]
fn unsupported_maintenance_calls() {
    assert_eq!(alarm().code, Code::Unknown);
    assert_eq!(alarm().message, "alarm is not supported");
    assert_eq!(defragment().message, "defragment is not supported");
    assert_eq!(hash().code, Code::Unimplemented);
    assert_eq!(hash().message, "hash is not implemented");
    assert_eq!(hash_kv().message, "hashKV is not implemented");
    assert_eq!(snapshot().message, "snapshot is not implemented");
    assert_eq!(move_leader().message, "moveLeader is not implemented");
    assert_eq!(downgrade().message, "downgrade is not implemented");
}

#[test]
fn member_list_uses_authority() {
    let r = member_list(Some("10.0.0.1:2379".to_string()));
    assert_eq!(r.members.len(), 1);
    assert_eq!(r.members[0].name, "kine");
    assert_eq!(r.members[0].peer_ur_ls, vec!["http://10.0.0.1:2379".to_string()]);
    assert_eq!(r.members[0].client_ur_ls, vec!["http://10.0.0.1:2379".to_string()]);
    assert!(!r.members[0].is_learner);
    let r = member_list(None);
    assert_eq!(r.members[0].client_ur_ls, vec!["http://127.0.0.1:2379".to_string()]);
}

#[test]
fn membership_changes_are_refused() {
    assert_eq!(member_add().code, Code::Unknown);
    assert_eq!(member_add().message, "member add is not supported");
    assert_eq!(member_remove().message, "member remove is not supported");
    assert_eq!(member_update().message, "member update is not supported");
    assert_eq!(member_promote().message, "member promote is not supported");
}

fn create_req(key: &[u8], rev: i64) -> WatchRequest {
    WatchRequest {
        request_union: Some(RequestUnion::CreateRequest(WatchCreateRequest {
            key: key.to_vec(),
            range_end: vec![],
            start_revision: rev,
            prev_kv: false,
        })),
    }
}

fn cancel_req(id: i64) -> WatchRequest {
    WatchRequest { request_union: Some(RequestUnion::CancelRequest(WatchCancelRequest { watch_id: id })) }
}

#[test]
fn watch_session_starts_and_cancels() {
    let mut s = WatchSession::new();
    match s.handle(create_req(b"/wd/", 12)) {
        WatchAction::AssignId { key, start_revision } => {
            assert_eq!(key, "/wd/");
            assert_eq!(start_revision, 12);
        }
        _ => panic!("expected an id request"),
    }
    assert!(!s.is_active(3));
    let mut feed = s.start_watch(3, 12);
    let created = feed.announce();
    assert!(created.created);
    assert_eq!(created.watch_id, 3);
    assert!(s.is_active(3));
    match s.handle(cancel_req(3)) {
        WatchAction::Cancel { signal, response } => {
            assert!(signal);
            assert!(response.canceled);
            assert_eq!(response.watch_id, 3);
            assert_eq!(response.cancel_reason, "watch cancelled by client");
        }
        _ => panic!("expected a cancellation"),
    }
    assert!(!s.is_active(3));
    match s.handle(cancel_req(3)) {
        WatchAction::Cancel { signal, response } => {
            assert!(!signal);
            assert!(response.canceled);
        }
        _ => panic!("expected a cancellation"),
    }
}

#[test]
fn watch_session_progress_and_empty() {
    let mut s = WatchSession::new();
    let req = WatchRequest { request_union: Some(RequestUnion::ProgressRequest(WatchProgressRequest {})) };
    assert!(matches!(s.handle(req), WatchAction::AskRevision));
    assert!(matches!(s.handle(WatchRequest { request_union: None }), WatchAction::Ignore));
    let p = progress_response(Ok(55)).unwrap();
    assert_eq!(p.header.unwrap().revision, 55);
    let e = progress_response(Err(BackendError::Compacted)).unwrap_err();
    assert_eq!(e.code, Code::OutOfRange);
    let e = progress_response(Err(BackendError::FutureRev)).unwrap_err();
    assert_eq!(e.code, Code::Internal);
}

#[test]
fn watch_on_compacted_revision_is_cancelled() {
    let mut s = WatchSession::new();
    let mut feed = s.start_watch(4, 2);
    let created = feed.announce();
    assert!(created.created);
    let w = feed.watch_start_failed(BackendError::Compacted).unwrap();
    assert!(w.canceled);
    assert_eq!(w.watch_id, 4);
    assert_eq!(w.compact_revision, 2);
    assert_eq!(w.cancel_reason, "compacted");
    let e = feed.watch_start_failed(BackendError::Internal("x".to_string())).unwrap_err();
    assert_eq!(e.code, Code::Internal);
}

fn bkv(key: &str, value: &[u8], rev: i64) -> BackendKeyValue {
    BackendKeyValue {
        key: key.to_string(),
        create_revision: 1,
        mod_revision: rev,
        version: 1,
        value: value.to_vec(),
        lease: 0,
    }
}

#[test]
fn events_answer_at_last_revision() {
    let events = vec![
        BackendEvent { create: true, delete: false, kv: bkv("/w/k", b"v1", 5), prev_kv: None },
        BackendEvent { create: false, delete: true, kv: bkv("/w/k", b"", 6), prev_kv: Some(bkv("/w/k", b"v1", 5)) },
    ];
    let mut s = WatchSession::new();
    let mut feed = s.start_watch(9, 5);
    let _ = feed.announce();
    let w = feed.events_response(&events);
    assert_eq!(w.watch_id, 9);
    assert_eq!(w.header.unwrap().revision, 6);
    assert_eq!(w.events.len(), 2);
    assert_eq!(w.events[0].event_type, EVENT_PUT);
    assert_eq!(w.events[1].event_type, EVENT_DELETE);
    assert_eq!(w.events[1].prev_kv.as_ref().unwrap().value, b"v1".to_vec());
    assert_eq!(w.events[0].kv.as_ref().unwrap().key, b"/w/k".to_vec());
    let w = feed.events_response(&vec![]);
    assert_eq!(w.header.unwrap().revision, 0);
    assert!(w.events.is_empty());
}

#[test]
fn server_and_bridges_share_backend() {
    let server = RhinoServer::new(5u32);
    let bridge = server.bridge();
    let other = bridge.clone();
    assert_eq!(**bridge.backend(), 5);
    assert!(Arc::ptr_eq(bridge.backend(), other.backend()));
    let direct = KvBridge::new(Arc::new(7u32));
    assert_eq!(**direct.backend(), 7);
}

#[test]
fn watch_ids_start_at_one_and_increase() {
    let mut c = WatchIdCounter::new();
    assert_eq!(c.take(), 1);
    assert_eq!(c.take(), 2);
    assert_eq!(c.take(), 3);
}
