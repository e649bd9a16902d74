//! What the storage backend hands back: key-values, change events and errors,
//! and the calls that the server makes on it.
use vstd::prelude::*;

verus! {

/// A key with its value and revision data, as the storage backend holds it.
#[derive(Clone, Debug)]
pub struct BackendKeyValue {
    pub key: String,
    pub create_revision: i64,
    pub mod_revision: i64,
    pub version: i64,
    pub value: Vec<u8>,
    pub lease: i64,
}

pub struct BackendKeyValueView {
    pub key: Seq<char>,
    pub create_revision: i64,
    pub mod_revision: i64,
    pub version: i64,
    pub value: Seq<u8>,
    pub lease: i64,
}

impl View for BackendKeyValue {
    type V = BackendKeyValueView;

    open spec fn view(&self) -> BackendKeyValueView {
        BackendKeyValueView {
            key: self.key@,
            create_revision: self.create_revision,
            mod_revision: self.mod_revision,
            version: self.version,
            value: self.value@,
            lease: self.lease,
        }
    }
}

/// The view of an optional backend key-value.
pub open spec fn opt_bkv_view(kv: Option<BackendKeyValue>) -> Option<BackendKeyValueView> {
    match kv {
        Some(k) => Some(k@),
        None => None,
    }
}

/// One change of a key, as a watch on the backend reports it.
#[derive(Clone, Debug)]
pub struct BackendEvent {
    pub create: bool,
    pub delete: bool,
    pub kv: BackendKeyValue,
    pub prev_kv: Option<BackendKeyValue>,
}

/// Why a backend call failed.
#[derive(Clone, Debug)]
pub enum BackendError {
    /// A create found the key already present.
    KeyExists,
    /// The requested revision has been compacted away.
    Compacted,
    /// The requested revision lies in the future.
    FutureRev,
    /// Any other failure, with its description.
    Internal(String),
}

/// The text that describes an error.
pub open spec fn error_text(e: BackendError) -> Seq<char> {
    match e {
        BackendError::KeyExists => "key exists"@,
        BackendError::Compacted => "required revision has been compacted"@,
        BackendError::FutureRev => "required revision is a future revision"@,
        BackendError::Internal(msg) => msg@,
    }
}

impl BackendError {
    /// The text that describes this error.
    pub fn message(&self) -> (m: String)
        ensures
            m@ == error_text(*self),
    {
        match self {
            BackendError::KeyExists => "key exists".to_owned(),
            BackendError::Compacted => "required revision has been compacted".to_owned(),
            BackendError::FutureRev => "required revision is a future revision".to_owned(),
            BackendError::Internal(msg) => msg.clone(),
        }
    }
}

/// A call on the backend, with its arguments.
#[derive(Clone, Debug)]
pub enum BackendCall {
    Get { key: String, range_end: String, limit: i64, revision: i64, keys_only: bool },
    List { prefix: String, start_key: String, limit: i64, revision: i64, keys_only: bool },
    Count { prefix: String, start_key: String, revision: i64 },
    Create { key: String, value: Vec<u8>, lease: i64 },
    Update { key: String, value: Vec<u8>, revision: i64, lease: i64 },
    Delete { key: String, revision: i64 },
    CurrentRevision,
    Compact { revision: i64 },
}

pub enum BackendCallView {
    Get { key: Seq<char>, range_end: Seq<char>, limit: i64, revision: i64, keys_only: bool },
    List { prefix: Seq<char>, start_key: Seq<char>, limit: i64, revision: i64, keys_only: bool },
    Count { prefix: Seq<char>, start_key: Seq<char>, revision: i64 },
    Create { key: Seq<char>, value: Seq<u8>, lease: i64 },
    Update { key: Seq<char>, value: Seq<u8>, revision: i64, lease: i64 },
    Delete { key: Seq<char>, revision: i64 },
    CurrentRevision,
    Compact { revision: i64 },
}

impl View for BackendCall {
    type V = BackendCallView;

    open spec fn view(&self) -> BackendCallView {
        match self {
            BackendCall::Get { key, range_end, limit, revision, keys_only } => BackendCallView::Get {
                key: key@,
                range_end: range_end@,
                limit: *limit,
                revision: *revision,
                keys_only: *keys_only,
            },
            BackendCall::List { prefix, start_key, limit, revision, keys_only } => BackendCallView::List {
                prefix: prefix@,
                start_key: start_key@,
                limit: *limit,
                revision: *revision,
                keys_only: *keys_only,
            },
            BackendCall::Count { prefix, start_key, revision } => BackendCallView::Count {
                prefix: prefix@,
                start_key: start_key@,
                revision: *revision,
            },
            BackendCall::Create { key, value, lease } => BackendCallView::Create {
                key: key@,
                value: value@,
                lease: *lease,
            },
            BackendCall::Update { key, value, revision, lease } => BackendCallView::Update {
                key: key@,
                value: value@,
                revision: *revision,
                lease: *lease,
            },
            BackendCall::Delete { key, revision } => BackendCallView::Delete {
                key: key@,
                revision: *revision,
            },
            BackendCall::CurrentRevision => BackendCallView::CurrentRevision,
            BackendCall::Compact { revision } => BackendCallView::Compact { revision: *revision },
        }
    }
}

/// What a backend call answered.
#[derive(Debug)]
pub enum BackendReply {
    Get(Result<(i64, Option<BackendKeyValue>), BackendError>),
    List(Result<(i64, Vec<BackendKeyValue>), BackendError>),
    Count(Result<(i64, i64), BackendError>),
    Create(Result<i64, BackendError>),
    Update(Result<(i64, Option<BackendKeyValue>, bool), BackendError>),
    Delete(Result<(i64, Option<BackendKeyValue>, bool), BackendError>),
    CurrentRevision(Result<i64, BackendError>),
    Compact(Result<i64, BackendError>),
}

pub enum BackendReplyView {
    Get(Result<(i64, Option<BackendKeyValueView>), BackendError>),
    List(Result<(i64, Seq<BackendKeyValueView>), BackendError>),
    Count(Result<(i64, i64), BackendError>),
    Create(Result<i64, BackendError>),
    Update(Result<(i64, Option<BackendKeyValueView>, bool), BackendError>),
    Delete(Result<(i64, Option<BackendKeyValueView>, bool), BackendError>),
    CurrentRevision(Result<i64, BackendError>),
    Compact(Result<i64, BackendError>),
}

impl View for BackendReply {
    type V = BackendReplyView;

    open spec fn view(&self) -> BackendReplyView {
        match self {
            BackendReply::Get(r) => BackendReplyView::Get(
                match r {
                    Ok((rev, kv)) => Ok((*rev, opt_bkv_view(*kv))),
                    Err(e) => Err(*e),
                },
            ),
            BackendReply::List(r) => BackendReplyView::List(
                match r {
                    Ok((rev, kvs)) => Ok((*rev, kvs@.map_values(|kv: BackendKeyValue| kv@))),
                    Err(e) => Err(*e),
                },
            ),
            BackendReply::Count(r) => BackendReplyView::Count(*r),
            BackendReply::Create(r) => BackendReplyView::Create(*r),
            BackendReply::Update(r) => BackendReplyView::Update(
                match r {
                    Ok((rev, kv, ok)) => Ok((*rev, opt_bkv_view(*kv), *ok)),
                    Err(e) => Err(*e),
                },
            ),
            BackendReply::Delete(r) => BackendReplyView::Delete(
                match r {
                    Ok((rev, kv, ok)) => Ok((*rev, opt_bkv_view(*kv), *ok)),
                    Err(e) => Err(*e),
                },
            ),
            BackendReply::CurrentRevision(r) => BackendReplyView::CurrentRevision(*r),
            BackendReply::Compact(r) => BackendReplyView::Compact(*r),
        }
    }
}

/// Whether a reply is of the kind that a call gets back.
pub open spec fn reply_answers(call: BackendCallView, reply: BackendReplyView) -> bool {
    match call {
        BackendCallView::Get { .. } => reply is Get,
        BackendCallView::List { .. } => reply is List,
        BackendCallView::Count { .. } => reply is Count,
        BackendCallView::Create { .. } => reply is Create,
        BackendCallView::Update { .. } => reply is Update,
        BackendCallView::Delete { .. } => reply is Delete,
        BackendCallView::CurrentRevision => reply is CurrentRevision,
        BackendCallView::Compact { .. } => reply is Compact,
    }
}

} // verus!
