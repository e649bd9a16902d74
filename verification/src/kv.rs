//! The KV service: reads, the three transaction shapes that it serves
//! (create, update, delete), and compaction.
use vstd::prelude::*;
use vstd::string::{StrSliceExecFns, StringExecFns};
use vstd::utf8::*;
use crate::backend::{
    error_text, opt_bkv_view, reply_answers, BackendCall, BackendCallView, BackendError,
    BackendKeyValue, BackendKeyValueView, BackendReply, BackendReplyView,
};
use crate::text::{ascii_text, decode_lossy, is_ascii_bytes, lemma_ascii_reads_as_itself, lossy_utf8};
use crate::message::{
    kvs_view, mod_revision_of, result_of, target_of, CompareResult, CompareTarget,
    CompactionRequest, CompactionResponse, DeleteRangeRequest, DeleteRangeResponse,
    DeleteRangeResponseView, KeyValue, KeyValueView, PutRequest, PutResponse, PutResponseView,
    RangeRequest, RangeResponse, RangeResponseView, Request, RequestOp, Response, ResponseHeader,
    ResponseOp, ResponseView, TargetUnion, TxnRequest, TxnResponse, TxnResponseView,
};
use crate::status::{Code, RpcError};

verus! {

/// The header of a response at revision `rev`.
pub open spec fn header_at(rev: i64) -> Option<ResponseHeader> {
    Some(ResponseHeader { cluster_id: 0, member_id: 0, revision: rev, raft_term: 0 })
}

/// A backend key-value on the wire: the key's UTF-8 bytes, the rest as it is.
pub open spec fn proto_kv(kv: BackendKeyValueView) -> KeyValueView {
    KeyValueView {
        key: encode_utf8(kv.key),
        create_revision: kv.create_revision,
        mod_revision: kv.mod_revision,
        version: kv.version,
        value: kv.value,
        lease: kv.lease,
    }
}

/// An optional backend key-value on the wire: a list of none or one.
pub open spec fn proto_kvs(kv: Option<BackendKeyValueView>) -> Seq<KeyValueView> {
    match kv {
        Some(k) => seq![proto_kv(k)],
        None => Seq::empty(),
    }
}

/// The status that a failed backend call is answered with.
pub open spec fn kv_status(e: BackendError) -> (Code, Seq<char>) {
    match e {
        BackendError::KeyExists => (Code::FailedPrecondition, error_text(e)),
        BackendError::Compacted => (Code::OutOfRange, error_text(e)),
        BackendError::FutureRev => (Code::OutOfRange, error_text(e)),
        BackendError::Internal(msg) => (Code::Internal, msg@),
    }
}

/// The header of a response at revision `rev`.
pub fn response_header(rev: i64) -> (h: Option<ResponseHeader>)
    ensures
        h == header_at(rev),
        h matches Some(x) && x.revision == rev && x.cluster_id == 0 && x.member_id == 0 && x.raft_term == 0,
{
    Some(ResponseHeader { cluster_id: 0, member_id: 0, revision: rev, raft_term: 0 })
}

/// A backend key-value in its wire form.
pub fn to_proto_kv(kv: &BackendKeyValue) -> (p: KeyValue)
    ensures
        p@ == proto_kv(kv@),
        wire_form_of(p@, kv@),
{
    KeyValue {
        key: vstd::slice::slice_to_vec(kv.key.as_str().as_bytes()),
        value: kv.value.clone(),
        create_revision: kv.create_revision,
        mod_revision: kv.mod_revision,
        version: kv.version,
        lease: kv.lease,
    }
}

/// An optional backend key-value in wire form, as a list of none or one.
pub fn to_proto_kvs(kv: Option<&BackendKeyValue>) -> (v: Vec<KeyValue>)
    ensures
        kvs_view(v@) == proto_kvs(match kv { Some(k) => Some(k@), None => None }),
        wire_forms_of(kvs_view(v@), held(match kv { Some(k) => Some(k@), None => None })),
{
    match kv {
        Some(k) => {
            let mut v = Vec::new();
            v.push(to_proto_kv(k));
            proof {
                assert(kvs_view(v@) =~= proto_kvs(Some(k@)));
            }
            v
        },
        None => {
            let v = Vec::new();
            proof {
                assert(kvs_view(v@) =~= Seq::<KeyValueView>::empty());
            }
            v
        },
    }
}

/// The status that a failed backend call is answered with.
pub fn backend_err_to_status(e: BackendError) -> (s: RpcError)
    ensures
        s@ == kv_status(e),
{
    match e {
        BackendError::KeyExists => RpcError { code: Code::FailedPrecondition, message: e.message() },
        BackendError::Compacted => RpcError { code: Code::OutOfRange, message: e.message() },
        BackendError::FutureRev => RpcError { code: Code::OutOfRange, message: e.message() },
        BackendError::Internal(msg) => RpcError { code: Code::Internal, message: msg },
    }
}

/// Whether a transaction has exactly one guard, and that guard asks whether
/// a key's modification revision equals a given one.
pub open spec fn single_mod_equal_guard(t: TxnRequest) -> bool {
    &&& t.compare@.len() == 1
    &&& target_of(t.compare@[0].target) == CompareTarget::Mod
    &&& result_of(t.compare@[0].result) == CompareResult::Equal
}

/// The put that a step asks for, if it asks for one.
pub open spec fn put_of(op: RequestOp) -> Option<PutRequest> {
    match op.request {
        Some(Request::RequestPut(p)) => Some(p),
        _ => None,
    }
}

/// The deletion that a step asks for, if it asks for one.
pub open spec fn delete_of(op: RequestOp) -> Option<DeleteRangeRequest> {
    match op.request {
        Some(Request::RequestDeleteRange(d)) => Some(d),
        _ => None,
    }
}

/// Whether a step asks for a read.
pub open spec fn is_range_op(op: RequestOp) -> bool {
    op.request matches Some(Request::RequestRange(_))
}

/// The create shape: one guard "mod revision == 0", one put on success,
/// nothing on failure. Gives the put.
pub open spec fn create_pattern(t: TxnRequest) -> Option<PutRequest> {
    if single_mod_equal_guard(t) && mod_revision_of(t.compare@[0]) == 0 && t.failure@.len() == 0
        && t.success@.len() == 1 {
        put_of(t.success@[0])
    } else {
        None
    }
}

/// The update shape: one guard "mod revision == rev", one put on success,
/// one read on failure. Gives the revision, the guard's key, and the put's
/// value and lease.
pub open spec fn update_pattern(t: TxnRequest) -> Option<(i64, Seq<u8>, Seq<u8>, i64)> {
    if single_mod_equal_guard(t) && t.success@.len() == 1 && t.failure@.len() == 1
        && put_of(t.success@[0]) is Some && is_range_op(t.failure@[0]) {
        let p = put_of(t.success@[0])->0;
        Some((mod_revision_of(t.compare@[0]), t.compare@[0].key@, p.value@, p.lease))
    } else {
        None
    }
}

/// The delete shape, in two forms: no guard, a read then a deletion on
/// success and nothing on failure (revision 0: whatever is there); or one
/// guard "mod revision == rev", one deletion on success and one read on
/// failure. Gives the revision and the deletion's key.
pub open spec fn delete_pattern(t: TxnRequest) -> Option<(i64, Seq<u8>)> {
    if t.compare@.len() == 0 && t.failure@.len() == 0 && t.success@.len() == 2 && is_range_op(
        t.success@[0],
    ) && delete_of(t.success@[1]) is Some {
        Some((0, delete_of(t.success@[1])->0.key@))
    } else if single_mod_equal_guard(t) && t.success@.len() == 1 && t.failure@.len() == 1
        && delete_of(t.success@[0]) is Some && is_range_op(t.failure@[0]) {
        Some((mod_revision_of(t.compare@[0]), delete_of(t.success@[0])->0.key@))
    } else {
        None
    }
}

fn mod_equal_guard(txn: &TxnRequest) -> (b: bool)
    ensures
        b == single_mod_equal_guard(*txn),
{
    txn.compare.len() == 1 && txn.compare[0].target() == CompareTarget::Mod
        && txn.compare[0].result() == CompareResult::Equal
}

fn step_put(op: &RequestOp) -> (p: Option<&PutRequest>)
    ensures
        match p {
            Some(q) => put_of(*op) == Some(*q),
            None => put_of(*op) is None,
        },
{
    match &op.request {
        Some(Request::RequestPut(put)) => Some(put),
        _ => None,
    }
}

fn step_delete(op: &RequestOp) -> (d: Option<&DeleteRangeRequest>)
    ensures
        match d {
            Some(q) => delete_of(*op) == Some(*q),
            None => delete_of(*op) is None,
        },
{
    match &op.request {
        Some(Request::RequestDeleteRange(del)) => Some(del),
        _ => None,
    }
}

fn step_is_range(op: &RequestOp) -> (b: bool)
    ensures
        b == is_range_op(*op),
{
    match &op.request {
        Some(Request::RequestRange(_)) => true,
        _ => false,
    }
}

/// Recognises the create shape and gives its put.
pub fn is_create(txn: &TxnRequest) -> (p: Option<&PutRequest>)
    ensures
        match p {
            Some(q) => create_pattern(*txn) == Some(*q),
            None => create_pattern(*txn) is None,
        },
{
    if mod_equal_guard(txn) && txn.compare[0].mod_revision() == 0 && txn.failure.len() == 0
        && txn.success.len() == 1 {
        step_put(&txn.success[0])
    } else {
        None
    }
}

/// Recognises the update shape and gives the revision, key, value and lease.
pub fn is_update(txn: &TxnRequest) -> (u: Option<(i64, &[u8], &[u8], i64)>)
    ensures
        match u {
            Some((rev, key, value, lease)) => update_pattern(*txn) == Some(
                (rev, key@, value@, lease),
            ),
            None => update_pattern(*txn) is None,
        },
{
    if mod_equal_guard(txn) && txn.success.len() == 1 && txn.failure.len() == 1 {
        let put = match step_put(&txn.success[0]) {
            Some(p) => p,
            None => {
                return None;
            },
        };
        if !step_is_range(&txn.failure[0]) {
            return None;
        }
        Some((txn.compare[0].mod_revision(), txn.compare[0].key.as_slice(), put.value.as_slice(), put.lease))
    } else {
        None
    }
}

/// Recognises either delete shape and gives the revision and key.
pub fn is_delete(txn: &TxnRequest) -> (d: Option<(i64, &[u8])>)
    ensures
        match d {
            Some((rev, key)) => delete_pattern(*txn) == Some((rev, key@)),
            None => delete_pattern(*txn) is None,
        },
{
    if txn.compare.len() == 0 && txn.failure.len() == 0 && txn.success.len() == 2 {
        let is_range = step_is_range(&txn.success[0]);
        let del = step_delete(&txn.success[1]);
        if is_range {
            if let Some(del) = del {
                return Some((0, del.key.as_slice()));
            }
        }
    }
    if mod_equal_guard(txn) && txn.success.len() == 1 && txn.failure.len() == 1 {
        let del = match step_delete(&txn.success[0]) {
            Some(d) => d,
            None => {
                return None;
            },
        };
        if !step_is_range(&txn.failure[0]) {
            return None;
        }
        return Some((txn.compare[0].mod_revision(), del.key.as_slice()));
    }
    None
}

/// At most one of the three shapes fits any transaction.
pub proof fn lemma_shapes_exclusive(t: TxnRequest)
    ensures
        create_pattern(t) is Some ==> update_pattern(t) is None && delete_pattern(t) is None,
        update_pattern(t) is Some ==> delete_pattern(t) is None,
{
}


// ---------------------------------------------------------------------------
// Serving a request: a state machine from the request and the backend's
// replies to the next backend call or the answer.
// ---------------------------------------------------------------------------

/// What a pending request waits for, and what it has gathered so far.
#[derive(Debug)]
pub enum KvStage {
    /// A single-key read waits for `get`.
    Get,
    /// A count-only range read waits for `count`.
    CountOnly,
    /// A range read waits for `list`.
    List { prefix: String, start_key: String, limit: i64, revision: i64 },
    /// A range read that got more keys than its limit waits for the total `count`.
    ListTotal { kvs: Vec<KeyValue>, rev: i64 },
    /// A create waits for `create`.
    Create,
    /// A create that found the key waits for the current revision.
    CreateConflict,
    /// An update against revision 0 waits for `create` of `key`.
    UpdateAsCreate { key: String },
    /// An update against revision 0 that found the key waits for its `get`.
    UpdateConflict,
    /// An update waits for `update`.
    Update,
    /// A delete waits for `delete`.
    Delete,
    /// A compaction waits for `compact`.
    Compact,
    /// A put waits for the `get` that tells whether its key exists.
    PutRead { key: String, value: Vec<u8>, lease: i64 },
    /// A put of an absent key waits for `create`.
    PutCreate { key: String, value: Vec<u8>, lease: i64 },
    /// A put of a present key waits for `update` against the revision it read.
    PutUpdate { key: String, value: Vec<u8>, lease: i64 },
    /// A single-key deletion waits for `delete`; `prev_kv` says whether the
    /// deleted key-value is to be answered.
    DeleteRange { prev_kv: bool },
}

pub enum KvStageView {
    Get,
    CountOnly,
    List { prefix: Seq<char>, start_key: Seq<char>, limit: i64, revision: i64 },
    ListTotal { kvs: Seq<KeyValueView>, rev: i64 },
    Create,
    CreateConflict,
    UpdateAsCreate { key: Seq<char> },
    UpdateConflict,
    Update,
    Delete,
    Compact,
    PutRead { key: Seq<char>, value: Seq<u8>, lease: i64 },
    PutCreate { key: Seq<char>, value: Seq<u8>, lease: i64 },
    PutUpdate { key: Seq<char>, value: Seq<u8>, lease: i64 },
    DeleteRange { prev_kv: bool },
}

impl View for KvStage {
    type V = KvStageView;

    open spec fn view(&self) -> KvStageView {
        match self {
            KvStage::Get => KvStageView::Get,
            KvStage::CountOnly => KvStageView::CountOnly,
            KvStage::List { prefix, start_key, limit, revision } => KvStageView::List {
                prefix: prefix@,
                start_key: start_key@,
                limit: *limit,
                revision: *revision,
            },
            KvStage::ListTotal { kvs, rev } => KvStageView::ListTotal {
                kvs: kvs_view(kvs@),
                rev: *rev,
            },
            KvStage::Create => KvStageView::Create,
            KvStage::CreateConflict => KvStageView::CreateConflict,
            KvStage::UpdateAsCreate { key } => KvStageView::UpdateAsCreate { key: key@ },
            KvStage::UpdateConflict => KvStageView::UpdateConflict,
            KvStage::Update => KvStageView::Update,
            KvStage::Delete => KvStageView::Delete,
            KvStage::Compact => KvStageView::Compact,
            KvStage::PutRead { key, value, lease } => KvStageView::PutRead {
                key: key@,
                value: value@,
                lease: *lease,
            },
            KvStage::PutCreate { key, value, lease } => KvStageView::PutCreate {
                key: key@,
                value: value@,
                lease: *lease,
            },
            KvStage::PutUpdate { key, value, lease } => KvStageView::PutUpdate {
                key: key@,
                value: value@,
                lease: *lease,
            },
            KvStage::DeleteRange { prev_kv } => KvStageView::DeleteRange { prev_kv: *prev_kv },
        }
    }
}

/// The answer to a KV request.
#[derive(Debug)]
pub enum KvResponse {
    Range(RangeResponse),
    Txn(TxnResponse),
    Compaction(CompactionResponse),
    Put(PutResponse),
    DeleteRange(DeleteRangeResponse),
}

pub enum KvResponseView {
    Range(RangeResponseView),
    Txn(TxnResponseView),
    Compaction(CompactionResponse),
    Put(PutResponseView),
    DeleteRange(DeleteRangeResponseView),
}

impl View for KvResponse {
    type V = KvResponseView;

    open spec fn view(&self) -> KvResponseView {
        match self {
            KvResponse::Range(r) => KvResponseView::Range(r@),
            KvResponse::Txn(t) => KvResponseView::Txn(t@),
            KvResponse::Compaction(c) => KvResponseView::Compaction(*c),
            KvResponse::Put(p) => KvResponseView::Put(p@),
            KvResponse::DeleteRange(d) => KvResponseView::DeleteRange(d@),
        }
    }
}

/// The next move: call the backend and wait in a stage, or answer.
#[derive(Debug)]
pub enum KvStep {
    Call(KvStage, BackendCall),
    Done(Result<KvResponse, RpcError>),
}

pub enum KvStepView {
    Call(KvStageView, BackendCallView),
    Done(Result<KvResponseView, (Code, Seq<char>)>),
}

impl View for KvStep {
    type V = KvStepView;

    open spec fn view(&self) -> KvStepView {
        match self {
            KvStep::Call(stage, call) => KvStepView::Call(stage@, call@),
            KvStep::Done(Ok(r)) => KvStepView::Done(Ok(r@)),
            KvStep::Done(Err(e)) => KvStepView::Done(Err(e@)),
        }
    }
}

/// Decrement a byte, wrapping 0 to 255.
pub open spec fn byte_before(b: u8) -> u8 {
    if b == 0 {
        255
    } else {
        (b - 1) as u8
    }
}

/// Text made to end in '/', by adding one if it does not already.
pub open spec fn slash_terminated(s: Seq<char>) -> Seq<char> {
    if s.len() > 0 && s.last() == '/' {
        s
    } else {
        s.push('/')
    }
}

/// The key prefix that a range read lists. A range end of a single zero
/// byte (every key from the start key on) lists under "/". Any other range
/// end is the prefix with its last byte incremented, so that byte is
/// decremented back, and the result, read as text, is made to end in '/'.
pub open spec fn list_prefix(range_end: Seq<u8>) -> Seq<char> {
    if range_end == seq![0u8] {
        seq!['/']
    } else {
        let q = if range_end.len() > 0 {
            range_end.update(range_end.len() - 1, byte_before(range_end.last()))
        } else {
            range_end
        };
        slash_terminated(lossy_utf8(q))
    }
}

/// The key limit that a list asks the backend for: one more than the
/// client's, to learn whether there are more; 0 (no limit) stays 0.
pub open spec fn list_call_limit(limit: i64) -> i64 {
    if limit > 0 {
        (limit + 1) as i64
    } else {
        0
    }
}

/// Whether one more than the requested limit fits in an `i64` where a list needs it.
pub open spec fn range_limit_fits(r: RangeRequest) -> bool {
    r.range_end@.len() > 0 && !r.count_only ==> r.limit < i64::MAX
}

/// How a range read starts: an empty `range_end` reads one key with `get`;
/// otherwise the keys under the prefix from `list_prefix`, starting at the
/// key, at the requested revision (0 for latest), are counted or listed.
pub open spec fn range_outcome(r: RangeRequest) -> KvStepView {
    if r.range_end@.len() == 0 {
        KvStepView::Call(
            KvStageView::Get,
            BackendCallView::Get {
                key: lossy_utf8(r.key@),
                range_end: lossy_utf8(r.range_end@),
                limit: r.limit,
                revision: r.revision,
                keys_only: r.keys_only,
            },
        )
    } else {
        let prefix = list_prefix(r.range_end@);
        let start_key = lossy_utf8(r.key@);
        let revision = if r.revision > 0 {
            r.revision
        } else {
            0
        };
        if r.count_only {
            KvStepView::Call(
                KvStageView::CountOnly,
                BackendCallView::Count { prefix, start_key, revision },
            )
        } else {
            KvStepView::Call(
                KvStageView::List { prefix, start_key, limit: r.limit, revision },
                BackendCallView::List {
                    prefix,
                    start_key,
                    limit: list_call_limit(r.limit),
                    revision,
                    keys_only: r.keys_only,
                },
            )
        }
    }
}

/// Makes a prefix end in '/', adding one if it does not already.
pub fn with_trailing_slash(s: String) -> (t: String)
    ensures
        t@ == slash_terminated(s@),
{
    let mut s = s;
    let len = s.as_str().unicode_len();
    if !(len > 0 && s.as_str().get_char(len - 1) == '/') {
        proof {
            reveal_strlit("/");
        }
        s.append("/");
    }
    s
}

fn list_prefix_of(range_end: &Vec<u8>) -> (s: String)
    requires
        range_end@.len() > 0,
    ensures
        s@ == list_prefix(range_end@),
{
    if range_end.len() == 1 && range_end[0] == 0 {
        assert(range_end@ =~= seq![0u8]);
        proof {
            reveal_strlit("/");
        }
        let all = "/".to_owned();
        assert(all@ =~= seq!['/']);
        return all;
    }
    assert(range_end@ != seq![0u8]);
    let mut p = range_end.clone();
    let n = p.len();
    let last = p[n - 1];
    p.set(n - 1, last.wrapping_sub(1));
    with_trailing_slash(decode_lossy(p.as_slice()))
}

/// Starts a range read: the first backend call and the stage that waits for it.
pub fn handle_range(r: &RangeRequest) -> (step: KvStep)
    requires
        range_limit_fits(*r),
    ensures
        step@ == range_outcome(*r),
{
    if r.range_end.len() == 0 {
        handle_get(r)
    } else {
        handle_list(r)
    }
}

fn handle_get(r: &RangeRequest) -> (step: KvStep)
    requires
        r.range_end@.len() == 0,
    ensures
        step@ == range_outcome(*r),
{
    let key = decode_lossy(r.key.as_slice());
    let range_end = decode_lossy(r.range_end.as_slice());
    KvStep::Call(
        KvStage::Get,
        BackendCall::Get {
            key,
            range_end,
            limit: r.limit,
            revision: r.revision,
            keys_only: r.keys_only,
        },
    )
}

fn handle_list(r: &RangeRequest) -> (step: KvStep)
    requires
        r.range_end@.len() > 0,
        range_limit_fits(*r),
    ensures
        step@ == range_outcome(*r),
{
    let prefix = list_prefix_of(&r.range_end);
    let start = decode_lossy(r.key.as_slice());
    let revision = if r.revision > 0 {
        r.revision
    } else {
        0
    };
    if r.count_only {
        return KvStep::Call(
            KvStage::CountOnly,
            BackendCall::Count { prefix, start_key: start, revision },
        );
    }
    let limit = if r.limit > 0 {
        r.limit + 1
    } else {
        0
    };
    KvStep::Call(
        KvStage::List {
            prefix: prefix.clone(),
            start_key: start.clone(),
            limit: r.limit,
            revision,
        },
        BackendCall::List { prefix, start_key: start, limit, revision, keys_only: r.keys_only },
    )
}


/// The answer to an unsupported transaction.
pub open spec fn unsupported_txn() -> (Code, Seq<char>) {
    (Code::InvalidArgument, "unsupported transaction pattern"@)
}

/// How a create starts: puts with options this server lacks are refused,
/// else the backend creates the key with the put's value and lease.
pub open spec fn create_outcome(put: PutRequest) -> KvStepView {
    if put.ignore_lease {
        KvStepView::Done(Err((Code::Unimplemented, "ignoreLease is not implemented"@)))
    } else if put.ignore_value {
        KvStepView::Done(Err((Code::Unimplemented, "ignoreValue is not implemented"@)))
    } else if put.prev_kv {
        KvStepView::Done(Err((Code::Unimplemented, "prevKv is not implemented"@)))
    } else {
        KvStepView::Call(
            KvStageView::Create,
            BackendCallView::Create {
                key: lossy_utf8(put.key@),
                value: put.value@,
                lease: put.lease,
            },
        )
    }
}

/// How an update starts: against revision 0 it creates the key if absent;
/// else it updates the key if its modification revision is `rev`.
pub open spec fn update_outcome(rev: i64, key: Seq<u8>, value: Seq<u8>, lease: i64) -> KvStepView {
    if rev == 0 {
        KvStepView::Call(
            KvStageView::UpdateAsCreate { key: lossy_utf8(key) },
            BackendCallView::Create { key: lossy_utf8(key), value, lease },
        )
    } else {
        KvStepView::Call(
            KvStageView::Update,
            BackendCallView::Update { key: lossy_utf8(key), value, revision: rev, lease },
        )
    }
}

/// How a transaction starts: by its shape, tried as create, then update,
/// then delete; any other shape is refused.
pub open spec fn txn_outcome(t: TxnRequest) -> KvStepView {
    match create_pattern(t) {
        Some(put) => create_outcome(put),
        None => match update_pattern(t) {
            Some((rev, key, value, lease)) => update_outcome(rev, key, value, lease),
            None => match delete_pattern(t) {
                Some((rev, key)) => KvStepView::Call(
                    KvStageView::Delete,
                    BackendCallView::Delete { key: lossy_utf8(key), revision: rev },
                ),
                None => KvStepView::Done(Err(unsupported_txn())),
            },
        },
    }
}

fn handle_create(put: &PutRequest) -> (step: KvStep)
    ensures
        step@ == create_outcome(*put),
{
    if put.ignore_lease {
        return KvStep::Done(Err(RpcError::new(Code::Unimplemented, "ignoreLease is not implemented")));
    }
    if put.ignore_value {
        return KvStep::Done(Err(RpcError::new(Code::Unimplemented, "ignoreValue is not implemented")));
    }
    if put.prev_kv {
        return KvStep::Done(Err(RpcError::new(Code::Unimplemented, "prevKv is not implemented")));
    }
    let key = decode_lossy(put.key.as_slice());
    KvStep::Call(
        KvStage::Create,
        BackendCall::Create { key, value: put.value.clone(), lease: put.lease },
    )
}

fn handle_update(rev: i64, key: &[u8], value: &[u8], lease: i64) -> (step: KvStep)
    ensures
        step@ == update_outcome(rev, key@, value@, lease),
{
    let key_str = decode_lossy(key);
    if rev == 0 {
        return KvStep::Call(
            KvStage::UpdateAsCreate { key: key_str.clone() },
            BackendCall::Create { key: key_str, value: vstd::slice::slice_to_vec(value), lease },
        );
    }
    KvStep::Call(
        KvStage::Update,
        BackendCall::Update {
            key: key_str,
            value: vstd::slice::slice_to_vec(value),
            revision: rev,
            lease,
        },
    )
}

fn handle_delete(key: &[u8], revision: i64) -> (step: KvStep)
    ensures
        step@ == KvStepView::Call(
            KvStageView::Delete,
            BackendCallView::Delete { key: lossy_utf8(key@), revision },
        ),
{
    let key_str = decode_lossy(key);
    KvStep::Call(KvStage::Delete, BackendCall::Delete { key: key_str, revision })
}

/// Starts a transaction: by its shape, the first backend call, or the refusal.
pub fn txn(t: &TxnRequest) -> (step: KvStep)
    ensures
        step@ == txn_outcome(*t),
{
    if let Some(put) = is_create(t) {
        return handle_create(put);
    }
    if let Some((rev, key, value, lease)) = is_update(t) {
        return handle_update(rev, key, value, lease);
    }
    if let Some((rev, key)) = is_delete(t) {
        return handle_delete(key, rev);
    }
    KvStep::Done(Err(RpcError::new(Code::InvalidArgument, "unsupported transaction pattern")))
}

/// Starts a compaction up to the requested revision.
pub fn compact(r: &CompactionRequest) -> (step: KvStep)
    ensures
        step@ == KvStepView::Call(
            KvStageView::Compact,
            BackendCallView::Compact { revision: r.revision },
        ),
{
    KvStep::Call(KvStage::Compact, BackendCall::Compact { revision: r.revision })
}

/// How a put of `key` reads the key first: one key, latest revision,
/// without its value.
pub open spec fn put_read(key: Seq<char>, value: Seq<u8>, lease: i64) -> KvStepView {
    KvStepView::Call(
        KvStageView::PutRead { key, value, lease },
        BackendCallView::Get { key, range_end: Seq::empty(), limit: 1, revision: 0, keys_only: true },
    )
}

/// How a put starts: a put that asks for the previous key-value or to keep
/// the stored value or lease is refused, as every put once was, with the
/// advice to use a transaction; else the key is read, to create it or
/// update it.
pub open spec fn put_outcome(p: PutRequest) -> KvStepView {
    if p.ignore_lease || p.ignore_value || p.prev_kv {
        KvStepView::Done(Err((Code::Unimplemented, "direct Put is not supported; use Txn"@)))
    } else {
        put_read(lossy_utf8(p.key@), p.value@, p.lease)
    }
}

/// How a deletion starts: a single key is deleted whatever its revision;
/// a range of keys is refused with the advice to use a transaction.
pub open spec fn delete_range_outcome(d: DeleteRangeRequest) -> KvStepView {
    if d.range_end@.len() > 0 {
        KvStepView::Done(Err((Code::Unimplemented, "direct DeleteRange is not supported; use Txn"@)))
    } else {
        KvStepView::Call(
            KvStageView::DeleteRange { prev_kv: d.prev_kv },
            BackendCallView::Delete { key: lossy_utf8(d.key@), revision: 0 },
        )
    }
}

fn put_read_step(key: String, value: Vec<u8>, lease: i64) -> (step: KvStep)
    ensures
        step@ == put_read(key@, value@, lease),
{
    let k = key.clone();
    KvStep::Call(
        KvStage::PutRead { key, value, lease },
        BackendCall::Get { key: k, range_end: String::new(), limit: 1, revision: 0, keys_only: true },
    )
}

/// Starts a put of one key to a value: the key is read, then created if
/// absent or updated against the revision read if present.
pub fn put(p: &PutRequest) -> (step: KvStep)
    ensures
        step@ == put_outcome(*p),
{
    if p.ignore_lease || p.ignore_value || p.prev_kv {
        return KvStep::Done(Err(RpcError::new(Code::Unimplemented, "direct Put is not supported; use Txn")));
    }
    put_read_step(decode_lossy(p.key.as_slice()), p.value.clone(), p.lease)
}

/// Starts a deletion of one key, whatever its revision.
pub fn delete_range(d: &DeleteRangeRequest) -> (step: KvStep)
    ensures
        step@ == delete_range_outcome(*d),
{
    if d.range_end.len() > 0 {
        return KvStep::Done(
            Err(RpcError::new(Code::Unimplemented, "direct DeleteRange is not supported; use Txn")),
        );
    }
    KvStep::Call(
        KvStage::DeleteRange { prev_kv: d.prev_kv },
        BackendCall::Delete { key: decode_lossy(d.key.as_slice()), revision: 0 },
    )
}

/// The read answer at revision `rev` holding the key-value, if any.
pub open spec fn read_response(rev: i64, kv: Option<BackendKeyValueView>) -> RangeResponseView {
    RangeResponseView {
        header: header_at(rev),
        kvs: proto_kvs(kv),
        more: false,
        count: proto_kvs(kv).len() as i64,
    }
}

/// The answer to a put that went through at revision `rev`.
pub open spec fn put_answer(rev: i64) -> PutResponseView {
    PutResponseView { header: header_at(rev), prev_kv: None }
}

/// The answer to a single-key deletion at revision `rev`: how many keys it
/// removed, and the removed key-value when it was asked for.
pub open spec fn delete_range_answer(
    rev: i64,
    kv: Option<BackendKeyValueView>,
    ok: bool,
    prev_kv: bool,
) -> DeleteRangeResponseView {
    DeleteRangeResponseView {
        header: header_at(rev),
        deleted: if ok {
            proto_kvs(kv).len() as i64
        } else {
            0
        },
        prev_kvs: if ok && prev_kv {
            proto_kvs(kv)
        } else {
            Seq::empty()
        },
    }
}

/// The step answer of a read.
pub open spec fn range_op(r: RangeResponseView) -> Option<ResponseView> {
    Some(ResponseView::ResponseRange(r))
}

/// A transaction whose put went through at revision `rev`.
pub open spec fn put_succeeded(rev: i64) -> TxnResponseView {
    TxnResponseView {
        header: header_at(rev),
        succeeded: true,
        responses: seq![
            Some(ResponseView::ResponsePut(PutResponseView { header: header_at(rev), prev_kv: None })),
        ],
    }
}

/// A transaction whose guard failed, answered with a read.
pub open spec fn failed_with_read(rev: i64, read: RangeResponseView) -> TxnResponseView {
    TxnResponseView { header: header_at(rev), succeeded: false, responses: seq![range_op(read)] }
}

/// A transaction whose delete went through at revision `rev`, with the deleted key-value.
pub open spec fn delete_succeeded(rev: i64, kv: Option<BackendKeyValueView>) -> TxnResponseView {
    TxnResponseView {
        header: header_at(rev),
        succeeded: true,
        responses: seq![
            Some(
                ResponseView::ResponseDeleteRange(
                    DeleteRangeResponseView {
                        header: header_at(rev),
                        deleted: proto_kvs(kv).len() as i64,
                        prev_kvs: proto_kvs(kv),
                    },
                ),
            ),
        ],
    }
}

/// Whether a reply is of the kind that a stage waits for.
pub open spec fn stage_accepts(stage: KvStageView, reply: BackendReplyView) -> bool {
    match stage {
        KvStageView::Get => reply is Get,
        KvStageView::CountOnly => reply is Count,
        KvStageView::List { .. } => reply is List,
        KvStageView::ListTotal { .. } => reply is Count,
        KvStageView::Create => reply is Create,
        KvStageView::CreateConflict => reply is CurrentRevision,
        KvStageView::UpdateAsCreate { .. } => reply is Create,
        KvStageView::UpdateConflict => reply is Get,
        KvStageView::Update => reply is Update,
        KvStageView::Delete => reply is Delete,
        KvStageView::Compact => reply is Compact,
        KvStageView::PutRead { .. } => reply is Get,
        KvStageView::PutCreate { .. } => reply is Create,
        KvStageView::PutUpdate { .. } => reply is Update,
        KvStageView::DeleteRange { .. } => reply is Delete,
    }
}

/// A failed backend call ends the request with its status.
pub open spec fn failed(e: BackendError) -> KvStepView {
    KvStepView::Done(Err(kv_status(e)))
}

/// The answer from a list: more keys than the limit are cut to the limit
/// and the total is counted at the listed revision (or the reply's, for a
/// latest read); otherwise all listed keys are the answer.
pub open spec fn list_outcome(
    prefix: Seq<char>,
    start_key: Seq<char>,
    limit: i64,
    revision: i64,
    rev: i64,
    kvs: Seq<BackendKeyValueView>,
) -> KvStepView {
    let p = kvs.map_values(|kv: BackendKeyValueView| proto_kv(kv));
    if limit > 0 && (p.len() as i64) > limit {
        KvStepView::Call(
            KvStageView::ListTotal { kvs: p.take(limit as int), rev },
            BackendCallView::Count {
                prefix,
                start_key,
                revision: if revision == 0 {
                    rev
                } else {
                    revision
                },
            },
        )
    } else {
        KvStepView::Done(
            Ok(
                KvResponseView::Range(
                    RangeResponseView {
                        header: header_at(rev),
                        kvs: p,
                        more: false,
                        count: p.len() as i64,
                    },
                ),
            ),
        )
    }
}

/// What a pending request does with the backend's reply.
pub open spec fn resume_outcome(stage: KvStageView, reply: BackendReplyView) -> KvStepView {
    match (stage, reply) {
        (KvStageView::Get, BackendReplyView::Get(Ok((rev, kv)))) => KvStepView::Done(
            Ok(KvResponseView::Range(read_response(rev, kv))),
        ),
        (KvStageView::CountOnly, BackendReplyView::Count(Ok((rev, count)))) => KvStepView::Done(
            Ok(
                KvResponseView::Range(
                    RangeResponseView { header: header_at(rev), kvs: Seq::empty(), more: false, count },
                ),
            ),
        ),
        (
            KvStageView::List { prefix, start_key, limit, revision },
            BackendReplyView::List(Ok((rev, kvs))),
        ) => list_outcome(prefix, start_key, limit, revision, rev, kvs),
        (KvStageView::ListTotal { kvs, rev }, BackendReplyView::Count(Ok((_, total)))) => KvStepView::Done(
            Ok(
                KvResponseView::Range(
                    RangeResponseView { header: header_at(rev), kvs, more: true, count: total },
                ),
            ),
        ),
        (KvStageView::Create, BackendReplyView::Create(Ok(rev))) => KvStepView::Done(
            Ok(KvResponseView::Txn(put_succeeded(rev))),
        ),
        (KvStageView::Create, BackendReplyView::Create(Err(BackendError::KeyExists))) => KvStepView::Call(
            KvStageView::CreateConflict,
            BackendCallView::CurrentRevision,
        ),
        (KvStageView::CreateConflict, BackendReplyView::CurrentRevision(Ok(rev))) => KvStepView::Done(
            Ok(
                KvResponseView::Txn(
                    TxnResponseView { header: header_at(rev), succeeded: false, responses: Seq::empty() },
                ),
            ),
        ),
        (KvStageView::UpdateAsCreate { .. }, BackendReplyView::Create(Ok(rev))) => KvStepView::Done(
            Ok(KvResponseView::Txn(put_succeeded(rev))),
        ),
        (
            KvStageView::UpdateAsCreate { key },
            BackendReplyView::Create(Err(BackendError::KeyExists)),
        ) => KvStepView::Call(
            KvStageView::UpdateConflict,
            BackendCallView::Get {
                key,
                range_end: Seq::empty(),
                limit: 1,
                revision: 0,
                keys_only: false,
            },
        ),
        (KvStageView::UpdateConflict, BackendReplyView::Get(Ok((rev, kv)))) => KvStepView::Done(
            Ok(
                KvResponseView::Txn(
                    failed_with_read(
                        rev,
                        RangeResponseView {
                            header: header_at(rev),
                            kvs: proto_kvs(kv),
                            more: false,
                            count: 1,
                        },
                    ),
                ),
            ),
        ),
        (KvStageView::Update, BackendReplyView::Update(Ok((rev, kv, ok)))) => KvStepView::Done(
            Ok(
                KvResponseView::Txn(
                    if ok {
                        put_succeeded(rev)
                    } else {
                        failed_with_read(rev, read_response(rev, kv))
                    },
                ),
            ),
        ),
        (KvStageView::Delete, BackendReplyView::Delete(Ok((rev, kv, ok)))) => KvStepView::Done(
            Ok(
                KvResponseView::Txn(
                    if ok {
                        delete_succeeded(rev, kv)
                    } else {
                        failed_with_read(rev, read_response(rev, kv))
                    },
                ),
            ),
        ),
        (KvStageView::Compact, BackendReplyView::Compact(Ok(rev))) => KvStepView::Done(
            Ok(KvResponseView::Compaction(CompactionResponse { header: header_at(rev) })),
        ),
        (KvStageView::PutRead { key, value, lease }, BackendReplyView::Get(Ok((_, None)))) => KvStepView::Call(
            KvStageView::PutCreate { key, value, lease },
            BackendCallView::Create { key, value, lease },
        ),
        (KvStageView::PutRead { key, value, lease }, BackendReplyView::Get(Ok((_, Some(kv))))) => KvStepView::Call(
            KvStageView::PutUpdate { key, value, lease },
            BackendCallView::Update { key, value, revision: kv.mod_revision, lease },
        ),
        (KvStageView::PutCreate { .. }, BackendReplyView::Create(Ok(rev))) => KvStepView::Done(
            Ok(KvResponseView::Put(put_answer(rev))),
        ),
        (
            KvStageView::PutCreate { key, value, lease },
            BackendReplyView::Create(Err(BackendError::KeyExists)),
        ) => put_read(key, value, lease),
        (KvStageView::PutUpdate { key, value, lease }, BackendReplyView::Update(Ok((rev, _, ok)))) => if ok {
            KvStepView::Done(Ok(KvResponseView::Put(put_answer(rev))))
        } else {
            put_read(key, value, lease)
        },
        (KvStageView::DeleteRange { prev_kv }, BackendReplyView::Delete(Ok((rev, kv, ok)))) => KvStepView::Done(
            Ok(KvResponseView::DeleteRange(delete_range_answer(rev, kv, ok, prev_kv))),
        ),
        (_, BackendReplyView::Get(Err(e))) => failed(e),
        (_, BackendReplyView::List(Err(e))) => failed(e),
        (_, BackendReplyView::Count(Err(e))) => failed(e),
        (_, BackendReplyView::Create(Err(e))) => failed(e),
        (_, BackendReplyView::Update(Err(e))) => failed(e),
        (_, BackendReplyView::Delete(Err(e))) => failed(e),
        (_, BackendReplyView::CurrentRevision(Err(e))) => failed(e),
        (_, BackendReplyView::Compact(Err(e))) => failed(e),
        _ => KvStepView::Done(Err((Code::Internal, Seq::empty()))),
    }
}

fn read_answer(rev: i64, kv: Option<&BackendKeyValue>) -> (r: RangeResponse)
    ensures
        r@ == read_response(rev, match kv { Some(k) => Some(k@), None => None }),
{
    let kvs = to_proto_kvs(kv);
    let count = kvs.len() as i64;
    RangeResponse { header: response_header(rev), kvs, more: false, count }
}

fn put_succeeded_answer(rev: i64) -> (t: TxnResponse)
    ensures
        t@ == put_succeeded(rev),
{
    let mut responses = Vec::new();
    responses.push(
        ResponseOp {
            response: Some(
                Response::ResponsePut(PutResponse { header: response_header(rev), prev_kv: None }),
            ),
        },
    );
    let t = TxnResponse { header: response_header(rev), succeeded: true, responses };
    assert(t@.responses =~= put_succeeded(rev).responses);
    t
}

fn failed_with_read_answer(rev: i64, read: RangeResponse) -> (t: TxnResponse)
    ensures
        t@ == failed_with_read(rev, read@),
{
    let mut responses = Vec::new();
    responses.push(ResponseOp { response: Some(Response::ResponseRange(read)) });
    let t = TxnResponse { header: response_header(rev), succeeded: false, responses };
    assert(t@.responses =~= failed_with_read(rev, read@).responses);
    t
}

fn delete_succeeded_answer(rev: i64, kv: Option<&BackendKeyValue>) -> (t: TxnResponse)
    ensures
        t@ == delete_succeeded(rev, match kv { Some(k) => Some(k@), None => None }),
{
    let kvs = to_proto_kvs(kv);
    let deleted = kvs.len() as i64;
    let mut responses = Vec::new();
    responses.push(
        ResponseOp {
            response: Some(
                Response::ResponseDeleteRange(
                    DeleteRangeResponse { header: response_header(rev), deleted, prev_kvs: kvs },
                ),
            ),
        },
    );
    let t = TxnResponse { header: response_header(rev), succeeded: true, responses };
    assert(t@.responses =~= delete_succeeded(rev, match kv { Some(k) => Some(k@), None => None }).responses);
    t
}

fn delete_range_answer_of(rev: i64, kv: Option<&BackendKeyValue>, ok: bool, prev_kv: bool) -> (d: DeleteRangeResponse)
    ensures
        d@ == delete_range_answer(rev, match kv { Some(k) => Some(k@), None => None }, ok, prev_kv),
{
    let kvs = to_proto_kvs(kv);
    if ok {
        let deleted = kvs.len() as i64;
        if prev_kv {
            DeleteRangeResponse { header: response_header(rev), deleted, prev_kvs: kvs }
        } else {
            let d = DeleteRangeResponse { header: response_header(rev), deleted, prev_kvs: Vec::new() };
            assert(d@.prev_kvs =~= Seq::<KeyValueView>::empty());
            d
        }
    } else {
        let d = DeleteRangeResponse { header: response_header(rev), deleted: 0, prev_kvs: Vec::new() };
        assert(d@.prev_kvs =~= Seq::<KeyValueView>::empty());
        d
    }
}

fn kv_failure(e: BackendError) -> (step: KvStep)
    ensures
        step@ == failed(e),
{
    KvStep::Done(Err(backend_err_to_status(e)))
}

proof fn lemma_opt_view(kv: Option<BackendKeyValue>)
    ensures
        opt_bkv_view(kv) == (match kv { Some(k) => Some(k@), None => None::<BackendKeyValueView> }),
{
}

fn list_answer(
    prefix: String,
    start_key: String,
    limit: i64,
    revision: i64,
    rev: i64,
    kvs: Vec<BackendKeyValue>,
) -> (step: KvStep)
    ensures
        step@ == list_outcome(
            prefix@,
            start_key@,
            limit,
            revision,
            rev,
            kvs@.map_values(|kv: BackendKeyValue| kv@),
        ),
{
    let ghost bkvs = kvs@.map_values(|kv: BackendKeyValue| kv@);
    let ghost spec_p = bkvs.map_values(|kv: BackendKeyValueView| proto_kv(kv));
    let mut proto: Vec<KeyValue> = Vec::new();
    let mut i: usize = 0;
    while i < kvs.len()
        invariant
            i <= kvs@.len(),
            bkvs == kvs@.map_values(|kv: BackendKeyValue| kv@),
            spec_p == bkvs.map_values(|kv: BackendKeyValueView| proto_kv(kv)),
            spec_p.len() == kvs@.len(),
            proto@.len() == i,
            kvs_view(proto@) == spec_p.take(i as int),
        decreases kvs.len() - i,
    {
        let ghost before = proto@;
        proto.push(to_proto_kv(&kvs[i]));
        proof {
            assert forall|k: int| 0 <= k < i implies kvs_view(proto@)[k] == spec_p[k] by {
                assert(kvs_view(before)[k] == spec_p.take(i as int)[k]);
            }
            assert(kvs_view(proto@) =~= spec_p.take(i + 1));
        }
        i = i + 1;
    }
    assert(kvs_view(proto@) =~= spec_p);
    let count = (#[verifier::truncate] (proto.len() as i64));
    if limit > 0 && count > limit {
        let n = limit as usize;
        let len = proto.len();
        assert(n < len) by (bit_vector)
            requires
                limit > 0,
                len as i64 > limit,
                n == limit as usize,
        ;
        let mut trimmed = proto;
        trimmed.truncate(n);
        assert(kvs_view(trimmed@) =~= spec_p.take(limit as int));
        let rev_for_count = if revision == 0 {
            rev
        } else {
            revision
        };
        KvStep::Call(
            KvStage::ListTotal { kvs: trimmed, rev },
            BackendCall::Count { prefix, start_key, revision: rev_for_count },
        )
    } else {
        KvStep::Done(
            Ok(KvResponse::Range(RangeResponse { header: response_header(rev), kvs: proto, more: false, count })),
        )
    }
}


impl KvStage {
    /// Whether `reply` is of the kind that this stage waits for.
    pub fn accepts(&self, reply: &BackendReply) -> (b: bool)
        ensures
            b == stage_accepts(self@, reply@),
    {
        match self {
            KvStage::Get => matches!(reply, BackendReply::Get(_)),
            KvStage::CountOnly => matches!(reply, BackendReply::Count(_)),
            KvStage::List { .. } => matches!(reply, BackendReply::List(_)),
            KvStage::ListTotal { .. } => matches!(reply, BackendReply::Count(_)),
            KvStage::Create => matches!(reply, BackendReply::Create(_)),
            KvStage::CreateConflict => matches!(reply, BackendReply::CurrentRevision(_)),
            KvStage::UpdateAsCreate { .. } => matches!(reply, BackendReply::Create(_)),
            KvStage::UpdateConflict => matches!(reply, BackendReply::Get(_)),
            KvStage::Update => matches!(reply, BackendReply::Update(_)),
            KvStage::Delete => matches!(reply, BackendReply::Delete(_)),
            KvStage::Compact => matches!(reply, BackendReply::Compact(_)),
            KvStage::PutRead { .. } => matches!(reply, BackendReply::Get(_)),
            KvStage::PutCreate { .. } => matches!(reply, BackendReply::Create(_)),
            KvStage::PutUpdate { .. } => matches!(reply, BackendReply::Update(_)),
            KvStage::DeleteRange { .. } => matches!(reply, BackendReply::Delete(_)),
        }
    }
}

/// Takes the backend's reply to the pending call: the next call, or the answer.
pub fn resume(stage: KvStage, reply: BackendReply) -> (step: KvStep)
    requires
        stage_accepts(stage@, reply@),
    ensures
        step@ == resume_outcome(stage@, reply@),
{
    match (stage, reply) {
        (KvStage::Get, BackendReply::Get(Ok((rev, kv)))) => {
            proof {
                lemma_opt_view(kv);
            }
            KvStep::Done(Ok(KvResponse::Range(read_answer(rev, kv.as_ref()))))
        },
        (KvStage::CountOnly, BackendReply::Count(Ok((rev, count)))) => {
            let r = RangeResponse { header: response_header(rev), kvs: Vec::new(), more: false, count };
            assert(r@.kvs =~= Seq::<KeyValueView>::empty());
            KvStep::Done(Ok(KvResponse::Range(r)))
        },
        (KvStage::List { prefix, start_key, limit, revision }, BackendReply::List(Ok((rev, kvs)))) => {
            list_answer(prefix, start_key, limit, revision, rev, kvs)
        },
        (KvStage::ListTotal { kvs, rev }, BackendReply::Count(Ok((_, total)))) => {
            KvStep::Done(
                Ok(KvResponse::Range(RangeResponse { header: response_header(rev), kvs, more: true, count: total })),
            )
        },
        (KvStage::Create, BackendReply::Create(Ok(rev))) => {
            KvStep::Done(Ok(KvResponse::Txn(put_succeeded_answer(rev))))
        },
        (KvStage::Create, BackendReply::Create(Err(BackendError::KeyExists))) => {
            KvStep::Call(KvStage::CreateConflict, BackendCall::CurrentRevision)
        },
        (KvStage::CreateConflict, BackendReply::CurrentRevision(Ok(rev))) => {
            let t = TxnResponse { header: response_header(rev), succeeded: false, responses: Vec::new() };
            assert(t@.responses =~= Seq::<Option<ResponseView>>::empty());
            KvStep::Done(Ok(KvResponse::Txn(t)))
        },
        (KvStage::UpdateAsCreate { .. }, BackendReply::Create(Ok(rev))) => {
            KvStep::Done(Ok(KvResponse::Txn(put_succeeded_answer(rev))))
        },
        (KvStage::UpdateAsCreate { key }, BackendReply::Create(Err(BackendError::KeyExists))) => {
            let range_end = String::new();
            KvStep::Call(
                KvStage::UpdateConflict,
                BackendCall::Get { key, range_end, limit: 1, revision: 0, keys_only: false },
            )
        },
        (KvStage::UpdateConflict, BackendReply::Get(Ok((rev, kv)))) => {
            proof {
                lemma_opt_view(kv);
            }
            let kvs = to_proto_kvs(kv.as_ref());
            let read = RangeResponse { header: response_header(rev), kvs, more: false, count: 1 };
            KvStep::Done(Ok(KvResponse::Txn(failed_with_read_answer(rev, read))))
        },
        (KvStage::Update, BackendReply::Update(Ok((rev, kv, ok)))) => {
            proof {
                lemma_opt_view(kv);
            }
            if ok {
                KvStep::Done(Ok(KvResponse::Txn(put_succeeded_answer(rev))))
            } else {
                let read = read_answer(rev, kv.as_ref());
                KvStep::Done(Ok(KvResponse::Txn(failed_with_read_answer(rev, read))))
            }
        },
        (KvStage::Delete, BackendReply::Delete(Ok((rev, kv, ok)))) => {
            proof {
                lemma_opt_view(kv);
            }
            if ok {
                KvStep::Done(Ok(KvResponse::Txn(delete_succeeded_answer(rev, kv.as_ref()))))
            } else {
                let read = read_answer(rev, kv.as_ref());
                KvStep::Done(Ok(KvResponse::Txn(failed_with_read_answer(rev, read))))
            }
        },
        (KvStage::Compact, BackendReply::Compact(Ok(rev))) => {
            KvStep::Done(Ok(KvResponse::Compaction(CompactionResponse { header: response_header(rev) })))
        },
        (KvStage::PutRead { key, value, lease }, BackendReply::Get(Ok((_, None)))) => {
            KvStep::Call(
                KvStage::PutCreate { key: key.clone(), value: value.clone(), lease },
                BackendCall::Create { key, value, lease },
            )
        },
        (KvStage::PutRead { key, value, lease }, BackendReply::Get(Ok((_, Some(kv))))) => {
            KvStep::Call(
                KvStage::PutUpdate { key: key.clone(), value: value.clone(), lease },
                BackendCall::Update { key, value, revision: kv.mod_revision, lease },
            )
        },
        (KvStage::PutCreate { .. }, BackendReply::Create(Ok(rev))) => {
            KvStep::Done(Ok(KvResponse::Put(PutResponse { header: response_header(rev), prev_kv: None })))
        },
        (KvStage::PutCreate { key, value, lease }, BackendReply::Create(Err(BackendError::KeyExists))) => {
            put_read_step(key, value, lease)
        },
        (KvStage::PutUpdate { key, value, lease }, BackendReply::Update(Ok((rev, _, ok)))) => {
            if ok {
                KvStep::Done(Ok(KvResponse::Put(PutResponse { header: response_header(rev), prev_kv: None })))
            } else {
                put_read_step(key, value, lease)
            }
        },
        (KvStage::DeleteRange { prev_kv }, BackendReply::Delete(Ok((rev, kv, ok)))) => {
            proof {
                lemma_opt_view(kv);
            }
            KvStep::Done(Ok(KvResponse::DeleteRange(delete_range_answer_of(rev, kv.as_ref(), ok, prev_kv))))
        },
        (_, BackendReply::Get(Err(e))) => kv_failure(e),
        (_, BackendReply::List(Err(e))) => kv_failure(e),
        (_, BackendReply::Count(Err(e))) => kv_failure(e),
        (_, BackendReply::Create(Err(e))) => kv_failure(e),
        (_, BackendReply::Update(Err(e))) => kv_failure(e),
        (_, BackendReply::Delete(Err(e))) => kv_failure(e),
        (_, BackendReply::CurrentRevision(Err(e))) => kv_failure(e),
        (_, BackendReply::Compact(Err(e))) => kv_failure(e),
        _ => vstd::pervasive::unreached(),
    }
}


// ---------------------------------------------------------------------------
// Laws of the KV service.
// ---------------------------------------------------------------------------

/// The prefix that a range read lists always ends in '/'.
pub proof fn lemma_list_prefix_ends_with_slash(range_end: Seq<u8>)
    ensures
        list_prefix(range_end).len() > 0,
        list_prefix(range_end).last() == '/',
{
}

/// A prefix read, as etcd clients send it (the range end is the key with
/// its last byte incremented), lists the key itself as the prefix when the
/// key is ASCII, with a '/' added when it does not already end in one.
pub proof fn lemma_prefix_read_lists_key(key: Seq<u8>)
    requires
        is_ascii_bytes(key),
        key.len() > 0,
    ensures
        list_prefix(key.update(key.len() - 1, (key.last() + 1) as u8)) == (if key.last() == 47 {
            ascii_text(key)
        } else {
            ascii_text(key).push('/')
        }),
{
    let range_end = key.update(key.len() - 1, (key.last() + 1) as u8);
    assert(range_end.update(range_end.len() - 1, byte_before(range_end.last())) =~= key);
    lemma_ascii_reads_as_itself(key);
    let t = ascii_text(key);
    assert(t.last() == key.last() as char);
    assert((t.last() == '/') == (key.last() == 47)) by {
        assert(key.last() < 128);
    }
}

/// A limited list never answers more keys than the limit: either all the
/// listed keys fit, and the answer says there are no more and counts them;
/// or they are cut to exactly the limit, the total is counted next, and the
/// answer then says there are more, with that total and the list's revision.
pub proof fn lemma_list_within_limit(
    prefix: Seq<char>,
    start_key: Seq<char>,
    limit: i64,
    revision: i64,
    rev: i64,
    kvs: Seq<BackendKeyValueView>,
    count_rev: i64,
    total: i64,
)
    requires
        limit > 0,
        kvs.len() <= i64::MAX,
    ensures
        match list_outcome(prefix, start_key, limit, revision, rev, kvs) {
            KvStepView::Done(Ok(KvResponseView::Range(r))) => {
                &&& r.kvs.len() <= limit
                &&& !r.more
                &&& r.count == r.kvs.len()
                &&& r.header == header_at(rev)
            },
            KvStepView::Call(stage, BackendCallView::Count { .. }) => {
                &&& stage matches KvStageView::ListTotal { kvs: cut, rev: listed_rev }
                &&& cut.len() == limit
                &&& listed_rev == rev
                &&& resume_outcome(stage, BackendReplyView::Count(Ok((count_rev, total))))
                    == KvStepView::Done(
                    Ok(
                        KvResponseView::Range(
                            RangeResponseView {
                                header: header_at(rev),
                                kvs: cut,
                                more: true,
                                count: total,
                            },
                        ),
                    ),
                )
            },
            _ => false,
        },
{
    let p = kvs.map_values(|kv: BackendKeyValueView| proto_kv(kv));
    assert(p.len() == kvs.len());
    assert((p.len() as i64) == p.len());
}

/// A guarded update or delete succeeds exactly when the backend applied it,
/// and its answer carries the backend's revision.
pub proof fn lemma_guarded_write_succeeds_iff_applied(
    rev: i64,
    kv: Option<BackendKeyValueView>,
    ok: bool,
)
    ensures
        resume_outcome(KvStageView::Update, BackendReplyView::Update(Ok((rev, kv, ok))))
            matches KvStepView::Done(Ok(KvResponseView::Txn(t))) && t.succeeded == ok && t.header
            == header_at(rev),
        resume_outcome(KvStageView::Delete, BackendReplyView::Delete(Ok((rev, kv, ok))))
            matches KvStepView::Done(Ok(KvResponseView::Txn(t))) && t.succeeded == ok && t.header
            == header_at(rev),
{
}

/// A create of a key that exists never reports success: the server asks for
/// the current revision and answers a failed transaction at it, with no
/// step answers.
pub proof fn lemma_create_of_existing_key_fails(rev: i64)
    ensures
        resume_outcome(KvStageView::Create, BackendReplyView::Create(Err(BackendError::KeyExists)))
            == KvStepView::Call(KvStageView::CreateConflict, BackendCallView::CurrentRevision),
        resume_outcome(KvStageView::CreateConflict, BackendReplyView::CurrentRevision(Ok(rev)))
            == KvStepView::Done(
            Ok(
                KvResponseView::Txn(
                    TxnResponseView {
                        header: header_at(rev),
                        succeeded: false,
                        responses: Seq::empty(),
                    },
                ),
            ),
        ),
{
}

/// Backend errors map to gRPC codes: an existing key to FailedPrecondition,
/// a compacted or future revision to OutOfRange, anything else to Internal;
/// the message is always the error's text.
pub proof fn lemma_error_codes(e: BackendError)
    ensures
        kv_status(e).1 == error_text(e),
        kv_status(e).0 == (match e {
            BackendError::KeyExists => Code::FailedPrecondition,
            BackendError::Compacted => Code::OutOfRange,
            BackendError::FutureRev => Code::OutOfRange,
            BackendError::Internal(_) => Code::Internal,
        }),
{
}

/// A failed backend call ends the request with its status, but for a key
/// that exists when a create (or an update against revision 0) asked to
/// make it: that is an answer, not an error.
pub proof fn lemma_backend_failure_ends_request(stage: KvStageView, reply: BackendReplyView, e: BackendError)
    requires
        stage_accepts(stage, reply),
        match reply {
            BackendReplyView::Get(r) => r == Err::<(i64, Option<BackendKeyValueView>), BackendError>(e),
            BackendReplyView::List(r) => r == Err::<(i64, Seq<BackendKeyValueView>), BackendError>(e),
            BackendReplyView::Count(r) => r == Err::<(i64, i64), BackendError>(e),
            BackendReplyView::Create(r) => r == Err::<i64, BackendError>(e),
            BackendReplyView::Update(r) => r == Err::<(i64, Option<BackendKeyValueView>, bool), BackendError>(e),
            BackendReplyView::Delete(r) => r == Err::<(i64, Option<BackendKeyValueView>, bool), BackendError>(e),
            BackendReplyView::CurrentRevision(r) => r == Err::<i64, BackendError>(e),
            BackendReplyView::Compact(r) => r == Err::<i64, BackendError>(e),
        },
    ensures
        (e is KeyExists && reply is Create) ==> resume_outcome(stage, reply) is Call,
        !(e is KeyExists && reply is Create) ==> resume_outcome(stage, reply) == failed(e),
{
}

/// Whether a reply fits the stage it is handed to exactly when it answers
/// the call that was made.
pub open spec fn step_consistent(step: KvStepView) -> bool {
    match step {
        KvStepView::Call(stage, call) => forall|r: BackendReplyView|
            #[trigger] stage_accepts(stage, r) <==> reply_answers(call, r),
        KvStepView::Done(_) => true,
    }
}

/// Every stage waits for exactly the kind of reply that its call gets back,
/// so a driver that feeds each call's reply to `resume` always meets its
/// requirement.
pub proof fn lemma_steps_consistent(
    r: RangeRequest,
    t: TxnRequest,
    p: PutRequest,
    d: DeleteRangeRequest,
    stage: KvStageView,
    reply: BackendReplyView,
)
    ensures
        step_consistent(range_outcome(r)),
        step_consistent(txn_outcome(t)),
        step_consistent(put_outcome(p)),
        step_consistent(delete_range_outcome(d)),
        step_consistent(
            KvStepView::Call(KvStageView::Compact, BackendCallView::Compact { revision: r.revision }),
        ),
        stage_accepts(stage, reply) ==> step_consistent(resume_outcome(stage, reply)),
{
}

/// A range read with no range end reads its one key with `get`; any other
/// range read counts or lists keys and never calls `get`.
pub proof fn lemma_range_dispatch(r: RangeRequest)
    ensures
        r.range_end@.len() == 0 ==> range_outcome(r) matches KvStepView::Call(
            KvStageView::Get,
            BackendCallView::Get { .. },
        ),
        r.range_end@.len() > 0 ==> (range_outcome(r) matches KvStepView::Call(
            KvStageView::CountOnly,
            BackendCallView::Count { .. },
        ) || range_outcome(r) matches KvStepView::Call(
            KvStageView::List { .. },
            BackendCallView::List { .. },
        )),
{
}

/// A put hands the backend exactly its key, value and lease: a key that the
/// read found absent is created, a present one is updated against the
/// revision read.
pub proof fn lemma_put_writes_its_value(
    key: Seq<char>,
    value: Seq<u8>,
    lease: i64,
    rev: i64,
    kv: Option<BackendKeyValueView>,
)
    ensures
        resume_outcome(KvStageView::PutRead { key, value, lease }, BackendReplyView::Get(Ok((rev, kv))))
            == match kv {
            None => KvStepView::Call(
                KvStageView::PutCreate { key, value, lease },
                BackendCallView::Create { key, value, lease },
            ),
            Some(k) => KvStepView::Call(
                KvStageView::PutUpdate { key, value, lease },
                BackendCallView::Update { key, value, revision: k.mod_revision, lease },
            ),
        },
{
}

/// A put answers success only once the backend has written it: a create
/// that went through, or an update that was applied. A create that found
/// the key, or an update that was not applied, reads the key again.
pub proof fn lemma_put_succeeds_only_when_written(
    key: Seq<char>,
    value: Seq<u8>,
    lease: i64,
    reply: BackendReplyView,
)
    requires
        stage_accepts(KvStageView::PutCreate { key, value, lease }, reply)
            || stage_accepts(KvStageView::PutUpdate { key, value, lease }, reply),
    ensures
        ({
            let stage = if reply is Create {
                KvStageView::PutCreate { key, value, lease }
            } else {
                KvStageView::PutUpdate { key, value, lease }
            };
            let out = resume_outcome(stage, reply);
            &&& out matches KvStepView::Done(Ok(KvResponseView::Put(a))) ==> (match reply {
                BackendReplyView::Create(Ok(rev)) => a == put_answer(rev),
                BackendReplyView::Update(Ok((rev, _, ok))) => ok && a == put_answer(rev),
                _ => false,
            })
            &&& reply matches BackendReplyView::Create(Err(BackendError::KeyExists)) ==> out == put_read(
                key,
                value,
                lease,
            )
            &&& reply matches BackendReplyView::Update(Ok((_, _, false))) ==> out == put_read(
                key,
                value,
                lease,
            )
        }),
{
}

/// A single-key deletion reports as deleted exactly the key-value that the
/// backend removed, none when it removed nothing, at the backend's revision.
pub proof fn lemma_delete_reports_removed(
    rev: i64,
    kv: Option<BackendKeyValueView>,
    ok: bool,
    prev_kv: bool,
)
    ensures
        resume_outcome(KvStageView::DeleteRange { prev_kv }, BackendReplyView::Delete(Ok((rev, kv, ok))))
            matches KvStepView::Done(Ok(KvResponseView::DeleteRange(a))) && a.header == header_at(rev)
            && a.deleted == (if ok && kv is Some {
            1int
        } else {
            0int
        }) && (prev_kv && ok ==> a.prev_kvs == proto_kvs(kv)),
{
}

// ---------------------------------------------------------------------------
// Laws stated field by field, over the backend's replies.
// ---------------------------------------------------------------------------

/// Whether `w` is the wire form of the backend key-value `k`: the key's
/// UTF-8 bytes, and every other field as it is.
pub open spec fn wire_form_of(w: KeyValueView, k: BackendKeyValueView) -> bool {
    &&& w.key == encode_utf8(k.key)
    &&& w.value == k.value
    &&& w.create_revision == k.create_revision
    &&& w.mod_revision == k.mod_revision
    &&& w.version == k.version
    &&& w.lease == k.lease
}

/// Whether `ws` holds exactly the wire forms of `ks`, in the same order.
pub open spec fn wire_forms_of(ws: Seq<KeyValueView>, ks: Seq<BackendKeyValueView>) -> bool {
    &&& ws.len() == ks.len()
    &&& forall|i: int| 0 <= i < ks.len() ==> wire_form_of(#[trigger] ws[i], ks[i])
}

/// The backend key-values that an optional one holds: none or one.
pub open spec fn held(kv: Option<BackendKeyValueView>) -> Seq<BackendKeyValueView> {
    match kv {
        Some(k) => seq![k],
        None => Seq::empty(),
    }
}

/// Whether a header reports revision `rev`.
pub open spec fn header_reports(h: Option<ResponseHeader>, rev: i64) -> bool {
    h matches Some(x) && x.revision == rev
}

/// Whether `r` is the one-step failure answer of a transaction: not
/// succeeded, at `rev`, with a single read step at `rev` that holds the
/// wire forms of `kvs`, says there are no more, and counts `count`.
pub open spec fn failed_with_current(t: TxnResponseView, rev: i64, kvs: Seq<BackendKeyValueView>, count: int) -> bool {
    &&& !t.succeeded
    &&& header_reports(t.header, rev)
    &&& t.responses.len() == 1
    &&& t.responses[0] matches Some(ResponseView::ResponseRange(read)) && {
        &&& header_reports(read.header, rev)
        &&& wire_forms_of(read.kvs, kvs)
        &&& !read.more
        &&& read.count == count
    }
}

/// A read reaches the backend at the revision asked for: a single key is
/// read as asked (its key as text, the limit, the revision, keys-only); a
/// range is counted or listed from the key as text, at the asked revision
/// when it is positive and at the latest (0) otherwise, and a limited list
/// asks for one key more than the limit, an unlimited one for all keys.
pub proof fn lemma_reads_reach_backend_as_asked(r: RangeRequest)
    ensures
        r.range_end@.len() == 0 ==> (range_outcome(r) matches KvStepView::Call(
            _,
            BackendCallView::Get { key, limit, revision, keys_only, .. },
        ) && key == lossy_utf8(r.key@) && limit == r.limit && revision == r.revision && keys_only
            == r.keys_only),
        r.range_end@.len() > 0 && r.count_only ==> (range_outcome(r) matches KvStepView::Call(
            KvStageView::CountOnly,
            BackendCallView::Count { prefix, start_key, revision },
        ) && prefix == list_prefix(r.range_end@) && start_key == lossy_utf8(r.key@) && revision == (
        if r.revision > 0 {
            r.revision
        } else {
            0
        })),
        r.range_end@.len() > 0 && !r.count_only && r.limit < i64::MAX ==> (range_outcome(r) matches KvStepView::Call(
            KvStageView::List { limit: kept_limit, .. },
            BackendCallView::List { prefix, start_key, limit, revision, keys_only },
        ) && prefix == list_prefix(r.range_end@) && start_key == lossy_utf8(r.key@) && revision == (
        if r.revision > 0 {
            r.revision
        } else {
            0
        }) && keys_only == r.keys_only && kept_limit == r.limit && limit == (if r.limit > 0 {
            r.limit + 1
        } else {
            0
        })),
{
}

/// A list without a limit answers every listed key, in order, in wire
/// form, at the list's revision, counts them, says there are no more, and
/// makes no further backend call.
pub proof fn lemma_unlimited_list_answers_every_key(
    prefix: Seq<char>,
    start_key: Seq<char>,
    limit: i64,
    revision: i64,
    rev: i64,
    kvs: Seq<BackendKeyValueView>,
)
    requires
        limit <= 0,
    ensures
        resume_outcome(
            KvStageView::List { prefix, start_key, limit, revision },
            BackendReplyView::List(Ok((rev, kvs))),
        ) matches KvStepView::Done(Ok(KvResponseView::Range(r))) && {
            &&& header_reports(r.header, rev)
            &&& wire_forms_of(r.kvs, kvs)
            &&& !r.more
            &&& r.count == kvs.len() as i64
        },
{
}

/// A read of one key answers the key-value the backend found, in wire
/// form, at the backend's revision, and counts it.
pub proof fn lemma_get_answers_found_key(rev: i64, kv: Option<BackendKeyValueView>)
    ensures
        resume_outcome(KvStageView::Get, BackendReplyView::Get(Ok((rev, kv))))
            matches KvStepView::Done(Ok(KvResponseView::Range(r))) && {
            &&& header_reports(r.header, rev)
            &&& wire_forms_of(r.kvs, held(kv))
            &&& !r.more
            &&& r.count == held(kv).len()
        },
{
}

/// An update against revision 0 that finds the key present answers a failed
/// transaction whose read step holds the key's current key-value (what the
/// follow-up read found), so that the client can retry; that read counts 1.
pub proof fn lemma_update_conflict_reports_current(rev: i64, kv: Option<BackendKeyValueView>)
    ensures
        resume_outcome(KvStageView::UpdateConflict, BackendReplyView::Get(Ok((rev, kv))))
            matches KvStepView::Done(Ok(KvResponseView::Txn(t))) && failed_with_current(t, rev, held(kv), 1),
{
}

/// A guarded update or delete that the backend did not apply answers a
/// failed transaction whose read step holds the key's current key-value,
/// counted, so a present key is reported with its current value.
pub proof fn lemma_unapplied_write_reports_current(rev: i64, kv: Option<BackendKeyValueView>)
    ensures
        resume_outcome(KvStageView::Update, BackendReplyView::Update(Ok((rev, kv, false))))
            matches KvStepView::Done(Ok(KvResponseView::Txn(t))) && failed_with_current(
            t,
            rev,
            held(kv),
            held(kv).len() as int,
        ),
        resume_outcome(KvStageView::Delete, BackendReplyView::Delete(Ok((rev, kv, false))))
            matches KvStepView::Done(Ok(KvResponseView::Txn(t))) && failed_with_current(
            t,
            rev,
            held(kv),
            held(kv).len() as int,
        ),
{
}

/// A delete transaction that the backend applied succeeds at its revision
/// with one deletion step that holds the deleted key-value and counts it.
pub proof fn lemma_applied_delete_reports_deleted(rev: i64, kv: Option<BackendKeyValueView>)
    ensures
        resume_outcome(KvStageView::Delete, BackendReplyView::Delete(Ok((rev, kv, true))))
            matches KvStepView::Done(Ok(KvResponseView::Txn(t))) && {
            &&& t.succeeded
            &&& header_reports(t.header, rev)
            &&& t.responses.len() == 1
            &&& t.responses[0] matches Some(ResponseView::ResponseDeleteRange(d)) && {
                &&& header_reports(d.header, rev)
                &&& wire_forms_of(d.prev_kvs, held(kv))
                &&& d.deleted == held(kv).len()
            }
        },
{
}

/// Each transaction shape calls the backend with what the transaction
/// holds: a create or an update against revision 0 creates the put's key
/// with its value and lease; an update against a revision updates the
/// guard's key against that revision; a delete deletes the deletion's key
/// against the guard's revision (0 when unguarded).
pub proof fn lemma_txn_calls_carry_request(t: TxnRequest)
    ensures
        match create_pattern(t) {
            Some(p) => !p.ignore_lease && !p.ignore_value && !p.prev_kv ==> (txn_outcome(t) matches KvStepView::Call(
                _,
                BackendCallView::Create { key, value, lease },
            ) && key == lossy_utf8(p.key@) && value == p.value@ && lease == p.lease),
            None => match update_pattern(t) {
                Some((rev, k, v, l)) => if rev == 0 {
                    txn_outcome(t) matches KvStepView::Call(
                        _,
                        BackendCallView::Create { key, value, lease },
                    ) && key == lossy_utf8(k) && value == v && lease == l
                } else {
                    txn_outcome(t) matches KvStepView::Call(
                        _,
                        BackendCallView::Update { key, value, revision, lease },
                    ) && key == lossy_utf8(k) && value == v && revision == rev && lease == l
                },
                None => match delete_pattern(t) {
                    Some((rev, k)) => txn_outcome(t) matches KvStepView::Call(
                        _,
                        BackendCallView::Delete { key, revision },
                    ) && key == lossy_utf8(k) && revision == rev,
                    None => true,
                },
            },
        },
{
}

/// A limited list that got more keys than its limit counts the total under
/// the same prefix and from the same start key, at the asked revision, or
/// at the list's own revision for a latest read.
pub proof fn lemma_limited_list_counts_total(
    prefix: Seq<char>,
    start_key: Seq<char>,
    limit: i64,
    revision: i64,
    rev: i64,
    kvs: Seq<BackendKeyValueView>,
)
    requires
        limit > 0,
        kvs.len() <= i64::MAX,
        kvs.len() > limit,
    ensures
        resume_outcome(
            KvStageView::List { prefix, start_key, limit, revision },
            BackendReplyView::List(Ok((rev, kvs))),
        ) matches KvStepView::Call(
            KvStageView::ListTotal { kvs: cut, rev: kept },
            BackendCallView::Count { prefix: p, start_key: s, revision: r },
        ) && p == prefix && s == start_key && r == (if revision == 0 {
            rev
        } else {
            revision
        }) && kept == rev && wire_forms_of(cut, kvs.take(limit as int)),
{
    let p = kvs.map_values(|kv: BackendKeyValueView| proto_kv(kv));
    assert((p.len() as i64) == p.len());
}

/// The answers of reads, counts, writes and compactions carry what the
/// backend replied: a count-only read the count and no keys; a create, or
/// an applied update, a succeeded transaction with one put step, both at
/// the backend's revision; a compaction its revision.
pub proof fn lemma_answers_carry_reply(rev: i64, n: i64, kv: Option<BackendKeyValueView>)
    ensures
        resume_outcome(KvStageView::CountOnly, BackendReplyView::Count(Ok((rev, n))))
            matches KvStepView::Done(Ok(KvResponseView::Range(r))) && header_reports(r.header, rev)
            && r.kvs.len() == 0 && r.count == n && !r.more,
        resume_outcome(KvStageView::Create, BackendReplyView::Create(Ok(rev)))
            matches KvStepView::Done(Ok(KvResponseView::Txn(t))) && succeeded_with_put(t, rev),
        resume_outcome(KvStageView::Update, BackendReplyView::Update(Ok((rev, kv, true))))
            matches KvStepView::Done(Ok(KvResponseView::Txn(t))) && succeeded_with_put(t, rev),
        resume_outcome(KvStageView::Compact, BackendReplyView::Compact(Ok(rev)))
            matches KvStepView::Done(Ok(KvResponseView::Compaction(c))) && header_reports(c.header, rev),
{
}

/// Whether a transaction succeeded at `rev` with one put step at `rev`.
pub open spec fn succeeded_with_put(t: TxnResponseView, rev: i64) -> bool {
    &&& t.succeeded
    &&& header_reports(t.header, rev)
    &&& t.responses.len() == 1
    &&& t.responses[0] matches Some(ResponseView::ResponsePut(p)) && header_reports(p.header, rev)
        && p.prev_kv is None
}

/// A put or single-key deletion reaches the backend with what it asks: a
/// put (without the options it refuses) reads its key as text, latest,
/// keys only, and is answered at the revision of the write that went
/// through; a deletion deletes its key as text, whatever its revision, and
/// counts as deleted exactly what the backend removed.
pub proof fn lemma_put_and_delete_reach_backend(
    p: PutRequest,
    d: DeleteRangeRequest,
    key: Seq<char>,
    value: Seq<u8>,
    lease: i64,
    rev: i64,
    kv: Option<BackendKeyValueView>,
    ok: bool,
    prev_kv: bool,
)
    ensures
        !p.ignore_lease && !p.ignore_value && !p.prev_kv ==> (put_outcome(p) matches KvStepView::Call(
            KvStageView::PutRead { key: k, value: v, lease: l },
            BackendCallView::Get { key: gk, range_end, limit, revision, .. },
        ) && k == lossy_utf8(p.key@) && gk == k && v == p.value@ && l == p.lease && range_end.len() == 0
            && limit == 1 && revision == 0),
        d.range_end@.len() == 0 ==> (delete_range_outcome(d) matches KvStepView::Call(
            KvStageView::DeleteRange { prev_kv: asked },
            BackendCallView::Delete { key: dk, revision },
        ) && dk == lossy_utf8(d.key@) && revision == 0 && asked == d.prev_kv),
        resume_outcome(KvStageView::PutCreate { key, value, lease }, BackendReplyView::Create(Ok(rev)))
            matches KvStepView::Done(Ok(KvResponseView::Put(a))) && header_reports(a.header, rev)
            && a.prev_kv is None,
        resume_outcome(KvStageView::PutUpdate { key, value, lease }, BackendReplyView::Update(Ok((rev, kv, true))))
            matches KvStepView::Done(Ok(KvResponseView::Put(a))) && header_reports(a.header, rev)
            && a.prev_kv is None,
        resume_outcome(KvStageView::DeleteRange { prev_kv }, BackendReplyView::Delete(Ok((rev, kv, ok))))
            matches KvStepView::Done(Ok(KvResponseView::DeleteRange(a))) && header_reports(a.header, rev)
            && a.deleted == (if ok {
            held(kv).len() as int
        } else {
            0
        }) && (if ok && prev_kv {
            wire_forms_of(a.prev_kvs, held(kv))
        } else {
            a.prev_kvs.len() == 0
        }),
{
}

/// The transaction shapes, field by field: the create shape is one guard
/// on the modification revision (target 2) being equal (result not 1, 2
/// or 3) to 0, no failure steps and one put step; the update shape is such
/// a guard on any revision, one put step and one read failure step; the
/// delete shape is either no guard, a read then a deletion, no failure
/// steps, or such a guard, one deletion step and one read failure step.
pub proof fn lemma_shapes_by_fields(t: TxnRequest)
    ensures
        create_pattern(t) is Some <==> ({
            &&& t.compare@.len() == 1
            &&& t.compare@[0].target == 2
            &&& !(t.compare@[0].result == 1 || t.compare@[0].result == 2 || t.compare@[0].result == 3)
            &&& match t.compare@[0].target_union {
                Some(TargetUnion::ModRevision(r)) => r == 0,
                _ => true,
            }
            &&& t.failure@.len() == 0
            &&& t.success@.len() == 1
            &&& t.success@[0].request matches Some(Request::RequestPut(_))
        }),
        create_pattern(t) matches Some(p) ==> t.success@[0].request == Some(Request::RequestPut(p)),
        update_pattern(t) is Some <==> ({
            &&& t.compare@.len() == 1
            &&& t.compare@[0].target == 2
            &&& !(t.compare@[0].result == 1 || t.compare@[0].result == 2 || t.compare@[0].result == 3)
            &&& t.success@.len() == 1
            &&& t.failure@.len() == 1
            &&& t.success@[0].request matches Some(Request::RequestPut(_))
            &&& t.failure@[0].request matches Some(Request::RequestRange(_))
        }),
        update_pattern(t) matches Some((rev, key, value, lease)) ==> (t.success@[0].request matches Some(
            Request::RequestPut(p),
        ) && key == t.compare@[0].key@ && value == p.value@ && lease == p.lease && rev == (
        match t.compare@[0].target_union {
            Some(TargetUnion::ModRevision(r)) => r,
            _ => 0,
        })),
        delete_pattern(t) is Some <==> (({
            &&& t.compare@.len() == 0
            &&& t.failure@.len() == 0
            &&& t.success@.len() == 2
            &&& t.success@[0].request matches Some(Request::RequestRange(_))
            &&& t.success@[1].request matches Some(Request::RequestDeleteRange(_))
        }) || ({
            &&& t.compare@.len() == 1
            &&& t.compare@[0].target == 2
            &&& !(t.compare@[0].result == 1 || t.compare@[0].result == 2 || t.compare@[0].result == 3)
            &&& t.success@.len() == 1
            &&& t.failure@.len() == 1
            &&& t.success@[0].request matches Some(Request::RequestDeleteRange(_))
            &&& t.failure@[0].request matches Some(Request::RequestRange(_))
        })),
{
}

} // verus!
