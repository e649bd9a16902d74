//! The lease service. Leases are not managed: grants echo the request,
//! keep-alives and time-to-live answer a fixed time, and nothing is listed.
use vstd::prelude::*;
use crate::kv::{header_at, response_header};
use crate::message::ResponseHeader;

verus! {

/// The time to live, in seconds, that keep-alive and time-to-live answers report.
pub const DEFAULT_TTL: i64 = 30;

#[derive(Clone, Copy, Debug, PartialEq, Eq, Structural)]
pub struct LeaseGrantRequest {
    pub ttl: i64,
    pub id: i64,
}

#[derive(Clone, Debug)]
pub struct LeaseGrantResponse {
    pub header: Option<ResponseHeader>,
    pub id: i64,
    pub ttl: i64,
    pub error: String,
}

#[derive(Clone, Copy, Debug, PartialEq, Eq, Structural)]
pub struct LeaseRevokeRequest {
    pub id: i64,
}

#[derive(Clone, Copy, Debug, PartialEq, Eq, Structural)]
pub struct LeaseRevokeResponse {
    pub header: Option<ResponseHeader>,
}

#[derive(Clone, Copy, Debug, PartialEq, Eq, Structural)]
pub struct LeaseKeepAliveRequest {
    pub id: i64,
}

#[derive(Clone, Copy, Debug, PartialEq, Eq, Structural)]
pub struct LeaseKeepAliveResponse {
    pub header: Option<ResponseHeader>,
    pub id: i64,
    pub ttl: i64,
}

#[derive(Clone, Copy, Debug, PartialEq, Eq, Structural)]
pub struct LeaseTimeToLiveRequest {
    pub id: i64,
    pub keys: bool,
}

#[derive(Clone, Debug)]
pub struct LeaseTimeToLiveResponse {
    pub header: Option<ResponseHeader>,
    pub id: i64,
    pub ttl: i64,
    pub granted_ttl: i64,
    pub keys: Vec<Vec<u8>>,
}

#[derive(Clone, Copy, Debug, PartialEq, Eq, Structural)]
pub struct LeaseStatus {
    pub id: i64,
}

#[derive(Clone, Debug)]
pub struct LeaseLeasesResponse {
    pub header: Option<ResponseHeader>,
    pub leases: Vec<LeaseStatus>,
}

/// Grants a lease by echoing the requested id and time to live.
pub fn lease_grant(r: &LeaseGrantRequest) -> (resp: LeaseGrantResponse)
    ensures
        resp.header == header_at(0),
        resp.id == r.id,
        resp.ttl == r.ttl,
        resp.error@ == Seq::<char>::empty(),
{
    LeaseGrantResponse { header: response_header(0), id: r.id, ttl: r.ttl, error: String::new() }
}

/// Revokes a lease: nothing to do but answer.
pub fn lease_revoke(_r: &LeaseRevokeRequest) -> (resp: LeaseRevokeResponse)
    ensures
        resp.header == header_at(0),
{
    LeaseRevokeResponse { header: response_header(0) }
}

/// The answer to one keep-alive message: its id, with the fixed time to live.
pub fn lease_keep_alive(r: &LeaseKeepAliveRequest) -> (resp: LeaseKeepAliveResponse)
    ensures
        resp == (LeaseKeepAliveResponse { header: header_at(0), id: r.id, ttl: DEFAULT_TTL }),
{
    LeaseKeepAliveResponse { header: response_header(0), id: r.id, ttl: DEFAULT_TTL }
}

/// The time to live of a lease: the fixed time, as granted and as left, no keys.
pub fn lease_time_to_live(r: &LeaseTimeToLiveRequest) -> (resp: LeaseTimeToLiveResponse)
    ensures
        resp.header == header_at(0),
        resp.id == r.id,
        resp.ttl == DEFAULT_TTL,
        resp.granted_ttl == DEFAULT_TTL,
        resp.keys@.len() == 0,
{
    LeaseTimeToLiveResponse {
        header: response_header(0),
        id: r.id,
        ttl: DEFAULT_TTL,
        granted_ttl: DEFAULT_TTL,
        keys: Vec::new(),
    }
}

/// The leases held: none.
pub fn lease_leases() -> (resp: LeaseLeasesResponse)
    ensures
        resp.header == header_at(0),
        resp.leases@.len() == 0,
{
    LeaseLeasesResponse { header: response_header(0), leases: Vec::new() }
}

} // verus!
