//! The server and the bridge that serves every etcd service from one shared backend.
use std::sync::Arc;
use vstd::prelude::*;

verus! {

/// Calls `Arc::clone`: claimed, as its documentation says, to give a
/// pointer to the same allocation, so to the same value.
#[verifier::external_body]
fn share<B>(a: &Arc<B>) -> (r: Arc<B>)
    ensures
        *r == **a,
{
    Arc::clone(a)
}

/// The server: it owns the backend, shared with the services it runs.
pub struct RhinoServer<B> {
    backend: Arc<B>,
}

impl<B> RhinoServer<B> {
    /// The backend that this server serves.
    pub closed spec fn backend_value(&self) -> B {
        *self.backend
    }

    /// A server over `backend`.
    pub fn new(backend: B) -> (s: Self)
        ensures
            s.backend_value() == backend,
    {
        Self { backend: Arc::new(backend) }
    }

    /// The bridge that serves the etcd services from this server's backend.
    pub fn bridge(&self) -> (b: KvBridge<B>)
        ensures
            b.backend_value() == self.backend_value(),
    {
        KvBridge::new(share(&self.backend))
    }
}

/// Serves the etcd services by delegating to the shared backend.
pub struct KvBridge<B> {
    backend: Arc<B>,
}

impl<B> KvBridge<B> {
    /// The backend that this bridge delegates to.
    pub closed spec fn backend_value(&self) -> B {
        *self.backend
    }

    /// A bridge over a shared backend.
    pub fn new(backend: Arc<B>) -> (b: Self)
        ensures
            b.backend_value() == *backend,
    {
        Self { backend }
    }

    /// The shared backend.
    pub fn backend(&self) -> (b: &Arc<B>)
        ensures
            **b == self.backend_value(),
    {
        &self.backend
    }
}

impl<B> Clone for KvBridge<B> {
    /// Another bridge over the same backend.
    fn clone(&self) -> (b: Self)
        ensures
            b.backend_value() == self.backend_value(),
    {
        Self { backend: share(&self.backend) }
    }
}

} // verus!
