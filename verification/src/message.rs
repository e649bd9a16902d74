//! The etcd v3 messages of the KV service that this server reads and writes,
//! with their mathematical views.
use vstd::prelude::*;

verus! {

/// The header carried by every response.
#[derive(Clone, Copy, Debug, PartialEq, Eq, Structural)]
pub struct ResponseHeader {
    pub cluster_id: u64,
    pub member_id: u64,
    pub revision: i64,
    pub raft_term: u64,
}

/// A key with its value and revision data, as the etcd wire format holds it.
#[derive(Clone, Debug)]
pub struct KeyValue {
    pub key: Vec<u8>,
    pub create_revision: i64,
    pub mod_revision: i64,
    pub version: i64,
    pub value: Vec<u8>,
    pub lease: i64,
}

pub struct KeyValueView {
    pub key: Seq<u8>,
    pub create_revision: i64,
    pub mod_revision: i64,
    pub version: i64,
    pub value: Seq<u8>,
    pub lease: i64,
}

impl View for KeyValue {
    type V = KeyValueView;

    open spec fn view(&self) -> KeyValueView {
        KeyValueView {
            key: self.key@,
            create_revision: self.create_revision,
            mod_revision: self.mod_revision,
            version: self.version,
            value: self.value@,
            lease: self.lease,
        }
    }
}

/// The views of a sequence of key-values.
pub open spec fn kvs_view(kvs: Seq<KeyValue>) -> Seq<KeyValueView> {
    kvs.map_values(|kv: KeyValue| kv@)
}

/// The view of an optional key-value.
pub open spec fn opt_kv_view(kv: Option<KeyValue>) -> Option<KeyValueView> {
    match kv {
        Some(k) => Some(k@),
        None => None,
    }
}

/// A read of one key (empty `range_end`) or of a range of keys.
#[derive(Clone, Debug)]
pub struct RangeRequest {
    pub key: Vec<u8>,
    pub range_end: Vec<u8>,
    pub limit: i64,
    pub revision: i64,
    pub keys_only: bool,
    pub count_only: bool,
}

#[derive(Clone, Debug)]
pub struct RangeResponse {
    pub header: Option<ResponseHeader>,
    pub kvs: Vec<KeyValue>,
    pub more: bool,
    pub count: i64,
}

pub struct RangeResponseView {
    pub header: Option<ResponseHeader>,
    pub kvs: Seq<KeyValueView>,
    pub more: bool,
    pub count: i64,
}

impl View for RangeResponse {
    type V = RangeResponseView;

    open spec fn view(&self) -> RangeResponseView {
        RangeResponseView {
            header: self.header,
            kvs: kvs_view(self.kvs@),
            more: self.more,
            count: self.count,
        }
    }
}

#[derive(Clone, Debug)]
pub struct PutRequest {
    pub key: Vec<u8>,
    pub value: Vec<u8>,
    pub lease: i64,
    pub prev_kv: bool,
    pub ignore_value: bool,
    pub ignore_lease: bool,
}

#[derive(Clone, Debug)]
pub struct PutResponse {
    pub header: Option<ResponseHeader>,
    pub prev_kv: Option<KeyValue>,
}

pub struct PutResponseView {
    pub header: Option<ResponseHeader>,
    pub prev_kv: Option<KeyValueView>,
}

impl View for PutResponse {
    type V = PutResponseView;

    open spec fn view(&self) -> PutResponseView {
        PutResponseView { header: self.header, prev_kv: opt_kv_view(self.prev_kv) }
    }
}

#[derive(Clone, Debug)]
pub struct DeleteRangeRequest {
    pub key: Vec<u8>,
    pub range_end: Vec<u8>,
    pub prev_kv: bool,
}

#[derive(Clone, Debug)]
pub struct DeleteRangeResponse {
    pub header: Option<ResponseHeader>,
    pub deleted: i64,
    pub prev_kvs: Vec<KeyValue>,
}

pub struct DeleteRangeResponseView {
    pub header: Option<ResponseHeader>,
    pub deleted: i64,
    pub prev_kvs: Seq<KeyValueView>,
}

impl View for DeleteRangeResponse {
    type V = DeleteRangeResponseView;

    open spec fn view(&self) -> DeleteRangeResponseView {
        DeleteRangeResponseView {
            header: self.header,
            deleted: self.deleted,
            prev_kvs: kvs_view(self.prev_kvs@),
        }
    }
}

/// What a `Compare` looks at, decoded from its wire number.
#[derive(Clone, Copy, Debug, PartialEq, Eq, Structural)]
pub enum CompareTarget {
    Version,
    Create,
    Mod,
    Value,
    Lease,
}

/// How a `Compare` compares, decoded from its wire number.
#[derive(Clone, Copy, Debug, PartialEq, Eq, Structural)]
pub enum CompareResult {
    Equal,
    Greater,
    Less,
    NotEqual,
}

/// The value a `Compare` compares against.
#[derive(Clone, Debug)]
pub enum TargetUnion {
    Version(i64),
    CreateRevision(i64),
    ModRevision(i64),
    Value(Vec<u8>),
    Lease(i64),
}

/// One guard of a transaction. `result` and `target` hold the wire numbers.
#[derive(Clone, Debug)]
pub struct Compare {
    pub result: i32,
    pub target: i32,
    pub key: Vec<u8>,
    pub range_end: Vec<u8>,
    pub target_union: Option<TargetUnion>,
}

/// The target that a wire number names; an unknown number reads as `Version`.
pub open spec fn target_of(n: i32) -> CompareTarget {
    if n == 1 {
        CompareTarget::Create
    } else if n == 2 {
        CompareTarget::Mod
    } else if n == 3 {
        CompareTarget::Value
    } else if n == 4 {
        CompareTarget::Lease
    } else {
        CompareTarget::Version
    }
}

/// The comparison that a wire number names; an unknown number reads as `Equal`.
pub open spec fn result_of(n: i32) -> CompareResult {
    if n == 1 {
        CompareResult::Greater
    } else if n == 2 {
        CompareResult::Less
    } else if n == 3 {
        CompareResult::NotEqual
    } else {
        CompareResult::Equal
    }
}

/// The revision a `Compare` holds when it compares a modification revision, else 0.
pub open spec fn mod_revision_of(c: Compare) -> i64 {
    match c.target_union {
        Some(TargetUnion::ModRevision(r)) => r,
        _ => 0,
    }
}

impl Compare {
    pub fn target(&self) -> (t: CompareTarget)
        ensures
            t == target_of(self.target),
    {
        if self.target == 1 {
            CompareTarget::Create
        } else if self.target == 2 {
            CompareTarget::Mod
        } else if self.target == 3 {
            CompareTarget::Value
        } else if self.target == 4 {
            CompareTarget::Lease
        } else {
            CompareTarget::Version
        }
    }

    pub fn result(&self) -> (r: CompareResult)
        ensures
            r == result_of(self.result),
    {
        if self.result == 1 {
            CompareResult::Greater
        } else if self.result == 2 {
            CompareResult::Less
        } else if self.result == 3 {
            CompareResult::NotEqual
        } else {
            CompareResult::Equal
        }
    }

    pub fn mod_revision(&self) -> (r: i64)
        ensures
            r == mod_revision_of(*self),
    {
        match &self.target_union {
            Some(TargetUnion::ModRevision(r)) => *r,
            _ => 0,
        }
    }
}

/// The operation that one step of a transaction asks for.
#[derive(Debug)]
pub enum Request {
    RequestRange(RangeRequest),
    RequestPut(PutRequest),
    RequestDeleteRange(DeleteRangeRequest),
    RequestTxn(TxnRequest),
}

#[derive(Debug)]
pub struct RequestOp {
    pub request: Option<Request>,
}

/// A transaction: guards, and the steps to run when they hold or fail.
#[derive(Debug)]
pub struct TxnRequest {
    pub compare: Vec<Compare>,
    pub success: Vec<RequestOp>,
    pub failure: Vec<RequestOp>,
}

#[derive(Clone, Debug)]
pub enum Response {
    ResponseRange(RangeResponse),
    ResponsePut(PutResponse),
    ResponseDeleteRange(DeleteRangeResponse),
}

pub enum ResponseView {
    ResponseRange(RangeResponseView),
    ResponsePut(PutResponseView),
    ResponseDeleteRange(DeleteRangeResponseView),
}

impl View for Response {
    type V = ResponseView;

    open spec fn view(&self) -> ResponseView {
        match self {
            Response::ResponseRange(r) => ResponseView::ResponseRange(r@),
            Response::ResponsePut(r) => ResponseView::ResponsePut(r@),
            Response::ResponseDeleteRange(r) => ResponseView::ResponseDeleteRange(r@),
        }
    }
}

#[derive(Clone, Debug)]
pub struct ResponseOp {
    pub response: Option<Response>,
}

impl View for ResponseOp {
    type V = Option<ResponseView>;

    open spec fn view(&self) -> Option<ResponseView> {
        match self.response {
            Some(r) => Some(r@),
            None => None,
        }
    }
}

#[derive(Clone, Debug)]
pub struct TxnResponse {
    pub header: Option<ResponseHeader>,
    pub succeeded: bool,
    pub responses: Vec<ResponseOp>,
}

pub struct TxnResponseView {
    pub header: Option<ResponseHeader>,
    pub succeeded: bool,
    pub responses: Seq<Option<ResponseView>>,
}

impl View for TxnResponse {
    type V = TxnResponseView;

    open spec fn view(&self) -> TxnResponseView {
        TxnResponseView {
            header: self.header,
            succeeded: self.succeeded,
            responses: self.responses@.map_values(|r: ResponseOp| r@),
        }
    }
}

#[derive(Clone, Copy, Debug, PartialEq, Eq, Structural)]
pub struct CompactionRequest {
    pub revision: i64,
    pub physical: bool,
}

#[derive(Clone, Copy, Debug, PartialEq, Eq, Structural)]
pub struct CompactionResponse {
    pub header: Option<ResponseHeader>,
}

} // verus!
