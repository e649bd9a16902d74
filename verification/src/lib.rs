//! An etcd v3 API shim: the decisions that turn etcd requests into calls on a
//! key-value store with revisions, and the store's answers into etcd responses.
pub mod backend;
pub mod cluster;
pub mod kv;
pub mod lease;
pub mod maintenance;
pub mod message;
pub mod server;
pub mod status;
pub mod text;
pub mod watch;

pub use server::{KvBridge, RhinoServer};

use vstd::prelude::*;

verus! {

} // verus!
