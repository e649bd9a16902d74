//! The cluster service: a single member, reachable at the address that the
//! client used; membership changes are refused.
use vstd::prelude::*;
use vstd::string::StringExecFns;
use crate::kv::{header_at, response_header};
use crate::message::ResponseHeader;
use crate::status::{Code, RpcError};

verus! {

#[derive(Clone, Debug)]
pub struct Member {
    pub id: u64,
    pub name: String,
    pub peer_ur_ls: Vec<String>,
    pub client_ur_ls: Vec<String>,
    pub is_learner: bool,
}

#[derive(Clone, Debug)]
pub struct MemberListResponse {
    pub header: Option<ResponseHeader>,
    pub members: Vec<Member>,
}

/// The URL of the single member: the client's authority over http, or the
/// default local address when the request names none.
pub open spec fn member_url(authority: Option<Seq<char>>) -> Seq<char> {
    match authority {
        Some(a) => "http://"@ + a,
        None => "http://127.0.0.1:2379"@,
    }
}

/// Adding members is not supported.
pub fn member_add() -> (e: RpcError)
    ensures
        e@ == (Code::Unknown, "member add is not supported"@),
{
    RpcError::new(Code::Unknown, "member add is not supported")
}

/// Removing members is not supported.
pub fn member_remove() -> (e: RpcError)
    ensures
        e@ == (Code::Unknown, "member remove is not supported"@),
{
    RpcError::new(Code::Unknown, "member remove is not supported")
}

/// Updating members is not supported.
pub fn member_update() -> (e: RpcError)
    ensures
        e@ == (Code::Unknown, "member update is not supported"@),
{
    RpcError::new(Code::Unknown, "member update is not supported")
}

/// Promoting members is not supported.
pub fn member_promote() -> (e: RpcError)
    ensures
        e@ == (Code::Unknown, "member promote is not supported"@),
{
    RpcError::new(Code::Unknown, "member promote is not supported")
}

/// The member list: one member named "kine", not a learner, whose peer and
/// client URL is `member_url` of the request's authority.
pub fn member_list(authority: Option<String>) -> (resp: MemberListResponse)
    ensures
        resp.header == header_at(0),
        resp.members@.len() == 1,
        ({
            let m = resp.members@[0];
            let url = member_url(
                match authority {
                    Some(a) => Some(a@),
                    None => None,
                },
            );
            &&& m.id == 0
            &&& m.name@ == "kine"@
            &&& m.peer_ur_ls@.len() == 1 && m.peer_ur_ls@[0]@ == url
            &&& m.client_ur_ls@.len() == 1 && m.client_ur_ls@[0]@ == url
            &&& !m.is_learner
        }),
{
    let url = match authority {
        Some(a) => {
            let mut u = "http://".to_owned();
            u.append(a.as_str());
            u
        },
        None => "http://127.0.0.1:2379".to_owned(),
    };
    let mut peer_ur_ls = Vec::new();
    peer_ur_ls.push(url.clone());
    let mut client_ur_ls = Vec::new();
    client_ur_ls.push(url);
    let mut members = Vec::new();
    members.push(Member { id: 0, name: "kine".to_owned(), peer_ur_ls, client_ur_ls, is_learner: false });
    MemberListResponse { header: response_header(0), members }
}

} // verus!
