//! Errors answered to an etcd client, as a gRPC status code and a message.
use vstd::prelude::*;

verus! {

/// The gRPC status codes that this server answers with.
#[derive(Clone, Copy, Debug, PartialEq, Eq, Structural)]
pub enum Code {
    Unknown,
    InvalidArgument,
    FailedPrecondition,
    OutOfRange,
    Unimplemented,
    Internal,
}

/// A failed call: the status code and its message.
#[derive(Clone, Debug)]
pub struct RpcError {
    pub code: Code,
    pub message: String,
}

impl View for RpcError {
    type V = (Code, Seq<char>);

    open spec fn view(&self) -> (Code, Seq<char>) {
        (self.code, self.message@)
    }
}

impl RpcError {
    /// An error with the given code and message.
    pub fn new(code: Code, message: &str) -> (e: RpcError)
        ensures
            e@ == (code, message@),
    {
        RpcError { code, message: message.to_owned() }
    }
}

} // verus!
