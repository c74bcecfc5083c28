//! Group endpoints: the logical request each one sends.

use crate::client::{Method, RequestComponents};
use crate::error::{RequestError, RobloxApiError, RobloxApiErrors};
use crate::json::{build_role_id_body, role_id_body};
use crate::routes::{append_paging, json_body_headers, json_body_headers_spec, paging_suffix};
use crate::structs::group::{GroupRole, GroupRolesList};
use crate::structs::SortOrder;
use crate::text::{dec_seq, usize_to_dec};
use vstd::prelude::*;
use vstd::string::*;

verus! {

/// The url addressing a group's join requests.
pub open spec fn join_requests_url(group_id: nat) -> Seq<char> {
    "https://groups.roblox.com/v1/groups/"@ + dec_seq(group_id) + "/join-requests"@
}

/// The url addressing one user's join request to a group.
pub open spec fn user_join_request_url(group_id: nat, user_id: nat) -> Seq<char> {
    join_requests_url(group_id) + "/users/"@ + dec_seq(user_id)
}

/// The url addressing one user's membership in a group.
pub open spec fn group_user_url(group_id: nat, user_id: nat) -> Seq<char> {
    "https://groups.roblox.com/v1/groups/"@ + dec_seq(group_id) + "/users/"@ + dec_seq(user_id)
}

fn build_join_requests_url(group_id: usize) -> (r: String)
    ensures
        r@ == join_requests_url(group_id as nat),
{
    let mut url = String::from_str("https://groups.roblox.com/v1/groups/");
    let id_text = usize_to_dec(group_id);
    url.append(id_text.as_str());
    url.append("/join-requests");
    proof {
        assert(url@ =~= join_requests_url(group_id as nat));
    }
    url
}

fn build_user_join_request_url(group_id: usize, user_id: usize) -> (r: String)
    ensures
        r@ == user_join_request_url(group_id as nat, user_id as nat),
{
    let mut url = build_join_requests_url(group_id);
    url.append("/users/");
    let id_text = usize_to_dec(user_id);
    url.append(id_text.as_str());
    proof {
        assert(url@ =~= user_join_request_url(group_id as nat, user_id as nat));
    }
    url
}

fn build_group_user_url(group_id: usize, user_id: usize) -> (r: String)
    ensures
        r@ == group_user_url(group_id as nat, user_id as nat),
{
    let mut url = String::from_str("https://groups.roblox.com/v1/groups/");
    let group_text = usize_to_dec(group_id);
    url.append(group_text.as_str());
    url.append("/users/");
    let user_text = usize_to_dec(user_id);
    url.append(user_text.as_str());
    proof {
        assert(url@ =~= group_user_url(group_id as nat, user_id as nat));
    }
    url
}

/// Looks up information about a group.
pub fn group_info_components(group_id: usize) -> (r: RequestComponents)
    ensures
        !r.needs_auth,
        r.method == Method::Get,
        r.url@ == "https://groups.roblox.com/v1/groups/"@ + dec_seq(group_id as nat),
        r.headers is None,
        r.body is None,
{
    let mut url = String::from_str("https://groups.roblox.com/v1/groups/");
    let id_text = usize_to_dec(group_id);
    url.append(id_text.as_str());
    RequestComponents { needs_auth: false, method: Method::Get, url, headers: None, body: None }
}

/// Lists a group's members, paginated.
pub fn group_members_components(
    group_id: usize,
    limit: Option<usize>,
    cursor: Option<String>,
    sort_order: Option<SortOrder>,
) -> (r: RequestComponents)
    ensures
        !r.needs_auth,
        r.method == Method::Get,
        r.url@ == "https://groups.roblox.com/v1/groups/"@ + dec_seq(group_id as nat) + "/users"@
            + paging_suffix(limit, cursor, sort_order),
        r.headers is None,
        r.body is None,
{
    let mut url = String::from_str("https://groups.roblox.com/v1/groups/");
    let id_text = usize_to_dec(group_id);
    url.append(id_text.as_str());
    url.append("/users");
    append_paging(&mut url, limit, cursor, sort_order);
    RequestComponents { needs_auth: false, method: Method::Get, url, headers: None, body: None }
}

/// Lists a group's roles.
pub fn group_roles_components(group_id: usize) -> (r: RequestComponents)
    ensures
        !r.needs_auth,
        r.method == Method::Get,
        r.url@ == "https://groups.roblox.com/v1/groups/"@ + dec_seq(group_id as nat) + "/roles"@,
        r.headers is None,
        r.body is None,
{
    let mut url = String::from_str("https://groups.roblox.com/v1/groups/");
    let id_text = usize_to_dec(group_id);
    url.append(id_text.as_str());
    url.append("/roles");
    RequestComponents { needs_auth: false, method: Method::Get, url, headers: None, body: None }
}

/// Lists the members holding one role of a group, paginated.
pub fn group_role_members_components(
    group_id: usize,
    role_id: usize,
    limit: Option<usize>,
    cursor: Option<String>,
    sort_order: Option<SortOrder>,
) -> (r: RequestComponents)
    ensures
        !r.needs_auth,
        r.method == Method::Get,
        r.url@ == "https://groups.roblox.com/v1/groups/"@ + dec_seq(group_id as nat) + "/roles/"@
            + dec_seq(role_id as nat) + "/users"@ + paging_suffix(limit, cursor, sort_order),
        r.headers is None,
        r.body is None,
{
    let mut url = String::from_str("https://groups.roblox.com/v1/groups/");
    let group_text = usize_to_dec(group_id);
    url.append(group_text.as_str());
    url.append("/roles/");
    let role_text = usize_to_dec(role_id);
    url.append(role_text.as_str());
    url.append("/users");
    append_paging(&mut url, limit, cursor, sort_order);
    proof {
        assert(url@ =~= "https://groups.roblox.com/v1/groups/"@ + dec_seq(group_id as nat)
            + "/roles/"@ + dec_seq(role_id as nat) + "/users"@ + paging_suffix(
            limit,
            cursor,
            sort_order,
        ));
    }
    RequestComponents { needs_auth: false, method: Method::Get, url, headers: None, body: None }
}

/// Lists the groups a user is in, with the user's role in each.
pub fn user_group_roles_components(user_id: usize) -> (r: RequestComponents)
    ensures
        !r.needs_auth,
        r.method == Method::Get,
        r.url@ == "https://groups.roblox.com/v1/users/"@ + dec_seq(user_id as nat)
            + "/groups/roles"@,
        r.headers is None,
        r.body is None,
{
    let mut url = String::from_str("https://groups.roblox.com/v1/users/");
    let id_text = usize_to_dec(user_id);
    url.append(id_text.as_str());
    url.append("/groups/roles");
    RequestComponents { needs_auth: false, method: Method::Get, url, headers: None, body: None }
}

/// Accepts a user's join request to a group. Needs authentication.
pub fn accept_join_request_components(group_id: usize, user_id: usize) -> (r: RequestComponents)
    ensures
        r.needs_auth,
        r.method == Method::Post,
        r.url@ == user_join_request_url(group_id as nat, user_id as nat),
        r.headers matches Some(hs) && hs@.len() == 1 && hs@[0].0@ == "Content-Length"@
            && hs@[0].1@ == "0"@,
        r.body is None,
{
    let url = build_user_join_request_url(group_id, user_id);
    let mut headers: Vec<(String, String)> = Vec::new();
    headers.push((String::from_str("Content-Length"), String::from_str("0")));
    RequestComponents {
        needs_auth: true,
        method: Method::Post,
        url,
        headers: Some(headers),
        body: None,
    }
}

/// Batch-accepts a group's pending join requests. Needs authentication.
pub fn batch_accept_requests_components(group_id: usize) -> (r: RequestComponents)
    ensures
        r.needs_auth,
        r.method == Method::Post,
        r.url@ == join_requests_url(group_id as nat),
        r.headers is None,
        r.body is None,
{
    let url = build_join_requests_url(group_id);
    RequestComponents { needs_auth: true, method: Method::Post, url, headers: None, body: None }
}

/// Batch-denies a group's pending join requests. Needs authentication.
pub fn batch_deny_requests_components(group_id: usize) -> (r: RequestComponents)
    ensures
        r.needs_auth,
        r.method == Method::Delete,
        r.url@ == join_requests_url(group_id as nat),
        r.headers is None,
        r.body is None,
{
    let url = build_join_requests_url(group_id);
    RequestComponents { needs_auth: true, method: Method::Delete, url, headers: None, body: None }
}

/// Retrieves a page of a group's pending join requests. Needs
/// authentication.
pub fn batch_get_requests_components(group_id: usize) -> (r: RequestComponents)
    ensures
        r.needs_auth,
        r.method == Method::Get,
        r.url@ == join_requests_url(group_id as nat),
        r.headers is None,
        r.body is None,
{
    let url = build_join_requests_url(group_id);
    RequestComponents { needs_auth: true, method: Method::Get, url, headers: None, body: None }
}

/// Denies a user's join request to a group. Needs authentication.
pub fn deny_join_request_components(group_id: usize, user_id: usize) -> (r: RequestComponents)
    ensures
        r.needs_auth,
        r.method == Method::Delete,
        r.url@ == user_join_request_url(group_id as nat, user_id as nat),
        r.headers is None,
        r.body is None,
{
    let url = build_user_join_request_url(group_id, user_id);
    RequestComponents { needs_auth: true, method: Method::Delete, url, headers: None, body: None }
}

/// Gets a user's join request to a group. Needs authentication.
pub fn user_join_request_components(group_id: usize, user_id: usize) -> (r: RequestComponents)
    ensures
        r.needs_auth,
        r.method == Method::Get,
        r.url@ == user_join_request_url(group_id as nat, user_id as nat),
        r.headers is None,
        r.body is None,
{
    let url = build_user_join_request_url(group_id, user_id);
    RequestComponents { needs_auth: true, method: Method::Get, url, headers: None, body: None }
}

/// Kicks a user from a group. Needs authentication.
pub fn kick_user_components(group_id: usize, user_id: usize) -> (r: RequestComponents)
    ensures
        r.needs_auth,
        r.method == Method::Delete,
        r.url@ == group_user_url(group_id as nat, user_id as nat),
        r.headers is None,
        r.body is None,
{
    let url = build_group_user_url(group_id, user_id);
    RequestComponents { needs_auth: true, method: Method::Delete, url, headers: None, body: None }
}

/// `i` is the first position in the role list holding the requested rank.
pub open spec fn role_pick(roles: Seq<GroupRole>, rank: u8, i: int) -> bool {
    &&& 0 <= i < roles.len()
    &&& roles[i].rank == rank
    &&& forall|j: int| 0 <= j < i ==> roles[j].rank != rank
}

/// Picks the group role holding the requested rank and plans the
/// role-change request; the first role in the list order with that rank is
/// the one used. When the group has no such role the platform-shaped
/// invalid-roleset error is returned instead, and nothing is sent. Needs
/// authentication.
pub fn set_user_role_plan(
    group_id: usize,
    user_id: usize,
    role_rank_id: u8,
    roles: &GroupRolesList,
) -> (r: Result<RequestComponents, RequestError>)
    ensures
        r is Ok <==> exists|i: int|
            0 <= i < roles.roles@.len() && #[trigger] roles.roles@[i].rank == role_rank_id,
        r matches Ok(c) ==> {
            &&& c.needs_auth
            &&& c.method == Method::Patch
            &&& c.url@ == group_user_url(group_id as nat, user_id as nat)
            &&& exists|i: int|
                {
                    &&& #[trigger] role_pick(roles.roles@, role_rank_id, i)
                    &&& c.body matches Some(b) && b@ == role_id_body(roles.roles@[i].id as nat)
                    &&& c.headers matches Some(hs) && json_body_headers_spec(
                        hs@,
                        role_id_body(roles.roles@[i].id as nat),
                    )
                }
        },
        r matches Err(e) ==> (e matches RequestError::ClientError(u, s, es) && u@ == group_user_url(
            group_id as nat,
            user_id as nat,
        ) && s == 400 && es.errors@.len() == 1 && es.errors@[0].code == 2 && es.errors@[0].message@
            == "The roleset is invalid or does not exist."@),
{
    let url = build_group_user_url(group_id, user_id);
    let mut i: usize = 0;
    while i < roles.roles.len()
        invariant
            i <= roles.roles@.len(),
            url@ == group_user_url(group_id as nat, user_id as nat),
            forall|j: int| 0 <= j < i ==> roles.roles@[j].rank != role_rank_id,
        decreases roles.roles@.len() - i,
    {
        if roles.roles[i].rank == role_rank_id {
            proof {
                assert(role_pick(roles.roles@, role_rank_id, i as int));
            }
            let body = build_role_id_body(roles.roles[i].id);
            let headers = json_body_headers(&body);
            return Ok(
                RequestComponents {
                    needs_auth: true,
                    method: Method::Patch,
                    url,
                    headers: Some(headers),
                    body: Some(body),
                },
            );
        }
        i += 1;
    }
    let entry = RobloxApiError {
        code: 2,
        message: String::from_str("The roleset is invalid or does not exist."),
    };
    Err(RequestError::ClientError(url, 400, RobloxApiErrors { errors: vec![entry] }))
}

} // verus!
