//! The maintenance service: the status report; the other calls are refused.
use vstd::prelude::*;
use crate::backend::{error_text, BackendError};
use crate::kv::{header_at, response_header};
use crate::message::ResponseHeader;
use crate::status::{Code, RpcError};

verus! {

/// The etcd version that this server reports.
pub const EMULATED_VERSION: &'static str = "3.5.13";

#[derive(Clone, Debug)]
pub struct StatusResponse {
    pub header: Option<ResponseHeader>,
    pub version: String,
    pub db_size: i64,
    pub leader: u64,
    pub raft_index: u64,
    pub raft_term: u64,
    pub raft_applied_index: u64,
    pub errors: Vec<String>,
    pub db_size_in_use: i64,
    pub is_learner: bool,
}

/// The status that a failed backend call is answered with here: internal,
/// with the error's text.
pub open spec fn maintenance_status(e: BackendError) -> (Code, Seq<char>) {
    (Code::Internal, error_text(e))
}

/// The status that a failed backend call is answered with here.
pub fn backend_err_to_status(e: BackendError) -> (s: RpcError)
    ensures
        s@ == maintenance_status(e),
{
    RpcError { code: Code::Internal, message: e.message() }
}

/// Alarms are not supported.
pub fn alarm() -> (e: RpcError)
    ensures
        e@ == (Code::Unknown, "alarm is not supported"@),
{
    RpcError::new(Code::Unknown, "alarm is not supported")
}

/// The status report from the backend's database size: the emulated
/// version and that size, all else zero; a failed size query fails it.
pub fn status(db_size: Result<i64, BackendError>) -> (r: Result<StatusResponse, RpcError>)
    ensures
        match db_size {
            Ok(size) => r matches Ok(s) && {
                &&& s.header == header_at(0)
                &&& s.version@ == EMULATED_VERSION@
                &&& s.db_size == size
                &&& s.leader == 0 && s.raft_index == 0 && s.raft_term == 0
                &&& s.raft_applied_index == 0 && s.db_size_in_use == 0 && !s.is_learner
                &&& s.errors@.len() == 0
            },
            Err(e) => r matches Err(x) && x@ == maintenance_status(e),
        },
{
    match db_size {
        Ok(size) => Ok(
            StatusResponse {
                header: response_header(0),
                version: EMULATED_VERSION.to_owned(),
                db_size: size,
                leader: 0,
                raft_index: 0,
                raft_term: 0,
                raft_applied_index: 0,
                errors: Vec::new(),
                db_size_in_use: 0,
                is_learner: false,
            },
        ),
        Err(e) => Err(backend_err_to_status(e)),
    }
}

/// Defragmentation is not supported.
pub fn defragment() -> (e: RpcError)
    ensures
        e@ == (Code::Unknown, "defragment is not supported"@),
{
    RpcError::new(Code::Unknown, "defragment is not supported")
}

/// Hashing is not implemented.
pub fn hash() -> (e: RpcError)
    ensures
        e@ == (Code::Unimplemented, "hash is not implemented"@),
{
    RpcError::new(Code::Unimplemented, "hash is not implemented")
}

/// Key-value hashing is not implemented.
pub fn hash_kv() -> (e: RpcError)
    ensures
        e@ == (Code::Unimplemented, "hashKV is not implemented"@),
{
    RpcError::new(Code::Unimplemented, "hashKV is not implemented")
}

/// Snapshots are not implemented.
pub fn snapshot() -> (e: RpcError)
    ensures
        e@ == (Code::Unimplemented, "snapshot is not implemented"@),
{
    RpcError::new(Code::Unimplemented, "snapshot is not implemented")
}

/// Leader moves are not implemented.
pub fn move_leader() -> (e: RpcError)
    ensures
        e@ == (Code::Unimplemented, "moveLeader is not implemented"@),
{
    RpcError::new(Code::Unimplemented, "moveLeader is not implemented")
}

/// Downgrades are not implemented.
pub fn downgrade() -> (e: RpcError)
    ensures
        e@ == (Code::Unimplemented, "downgrade is not implemented"@),
{
    RpcError::new(Code::Unimplemented, "downgrade is not implemented")
}

} // verus!
