//! User endpoints: the logical request each one sends.

use crate::client::{Method, RequestComponents};
use crate::json::{build_display_name_body, build_user_ids_body, build_usernames_body,
    display_name_body, user_ids_body, usernames_body};
use crate::routes::{append_paging, json_body_headers, json_body_headers_spec, paging_suffix};
use crate::structs::SortOrder;
use crate::text::{dec_seq, usize_to_dec};
use vstd::prelude::*;
use vstd::string::*;

verus! {

/// Looks up a user's previous usernames, paginated.
pub fn previous_usernames_components(
    id: usize,
    limit: Option<usize>,
    cursor: Option<String>,
    sort_order: Option<SortOrder>,
) -> (r: RequestComponents)
    ensures
        !r.needs_auth,
        r.method == Method::Get,
        r.url@ == "https://users.roblox.com/v1/users/"@ + dec_seq(id as nat)
            + "/username-history"@ + paging_suffix(limit, cursor, sort_order),
        r.headers is None,
        r.body is None,
{
    let mut url = String::from_str("https://users.roblox.com/v1/users/");
    let id_text = usize_to_dec(id);
    url.append(id_text.as_str());
    url.append("/username-history");
    append_paging(&mut url, limit, cursor, sort_order);
    RequestComponents { needs_auth: false, method: Method::Get, url, headers: None, body: None }
}

/// Looks up the info about a user from their user id.
pub fn user_info_components(id: usize) -> (r: RequestComponents)
    ensures
        !r.needs_auth,
        r.method == Method::Get,
        r.url@ == "https://users.roblox.com/v1/users/"@ + dec_seq(id as nat),
        r.headers is None,
        r.body is None,
{
    let mut url = String::from_str("https://users.roblox.com/v1/users/");
    let id_text = usize_to_dec(id);
    url.append(id_text.as_str());
    RequestComponents { needs_auth: false, method: Method::Get, url, headers: None, body: None }
}

/// Looks users up by their ids.
pub fn users_from_ids_components(ids: &Vec<usize>, exclude_banned: bool) -> (r: RequestComponents)
    ensures
        !r.needs_auth,
        r.method == Method::Post,
        r.url@ == "https://users.roblox.com/v1/users"@,
        r.body matches Some(b) && b@ == user_ids_body(ids@, exclude_banned),
        r.headers matches Some(hs) && json_body_headers_spec(
            hs@,
            user_ids_body(ids@, exclude_banned),
        ),
{
    let body = build_user_ids_body(ids, exclude_banned);
    let headers = json_body_headers(&body);
    RequestComponents {
        needs_auth: false,
        method: Method::Post,
        url: String::from_str("https://users.roblox.com/v1/users"),
        headers: Some(headers),
        body: Some(body),
    }
}

/// Looks users up by their usernames.
pub fn users_from_usernames_components(usernames: &Vec<String>, exclude_banned: bool) -> (r:
    RequestComponents)
    ensures
        !r.needs_auth,
        r.method == Method::Post,
        r.url@ == "https://users.roblox.com/v1/usernames/users"@,
        r.body matches Some(b) && b@ == usernames_body(usernames@, exclude_banned),
        r.headers matches Some(hs) && json_body_headers_spec(
            hs@,
            usernames_body(usernames@, exclude_banned),
        ),
{
    let body = build_usernames_body(usernames, exclude_banned);
    let headers = json_body_headers(&body);
    RequestComponents {
        needs_auth: false,
        method: Method::Post,
        url: String::from_str("https://users.roblox.com/v1/usernames/users"),
        headers: Some(headers),
        body: Some(body),
    }
}

/// Searches for users by a keyword.
pub fn search_user_components(
    username: &str,
    limit: Option<usize>,
    page_cursor: Option<String>,
) -> (r: RequestComponents)
    ensures
        !r.needs_auth,
        r.method == Method::Get,
        r.url@ == "https://users.roblox.com/v1/users/search?keyword="@ + username@ + "&limit="@
            + dec_seq(crate::routes::limit_value(limit)) + crate::routes::cursor_suffix(
            page_cursor,
        ),
        r.headers is None,
        r.body is None,
{
    let mut url = String::from_str("https://users.roblox.com/v1/users/search?keyword=");
    url.append(username);
    url.append("&limit=");
    let real_limit: usize = match limit {
        Some(l) => l,
        None => 10,
    };
    let limit_text = usize_to_dec(real_limit);
    url.append(limit_text.as_str());
    match page_cursor {
        Some(c) => {
            url.append("&cursor=");
            url.append(c.as_str());
        },
        None => {},
    }
    proof {
        assert(url@ =~= "https://users.roblox.com/v1/users/search?keyword="@ + username@
            + "&limit="@ + dec_seq(crate::routes::limit_value(limit))
            + crate::routes::cursor_suffix(page_cursor));
    }
    RequestComponents { needs_auth: false, method: Method::Get, url, headers: None, body: None }
}

/// Changes the authenticated user's display name. Needs authentication.
pub fn change_display_name_components(user_id: usize, new_name: &str) -> (r: RequestComponents)
    ensures
        r.needs_auth,
        r.method == Method::Patch,
        r.url@ == "https://users.roblox.com/v1/users/"@ + dec_seq(user_id as nat)
            + "/display-names"@,
        r.body matches Some(b) && b@ == display_name_body(new_name@),
        r.headers matches Some(hs) && json_body_headers_spec(hs@, display_name_body(new_name@)),
{
    let mut url = String::from_str("https://users.roblox.com/v1/users/");
    let id_text = usize_to_dec(user_id);
    url.append(id_text.as_str());
    url.append("/display-names");
    let body = build_display_name_body(new_name);
    let headers = json_body_headers(&body);
    RequestComponents {
        needs_auth: true,
        method: Method::Patch,
        url,
        headers: Some(headers),
        body: Some(body),
    }
}

/// Looks up minimal info about the authenticated user. Needs
/// authentication.
pub fn authenticated_user_components() -> (r: RequestComponents)
    ensures
        r.needs_auth,
        r.method == Method::Get,
        r.url@ == "https://users.roblox.com/v1/users/authenticated"@,
        r.headers is None,
        r.body is None,
{
    RequestComponents {
        needs_auth: true,
        method: Method::Get,
        url: String::from_str("https://users.roblox.com/v1/users/authenticated"),
        headers: None,
        body: None,
    }
}

/// Looks up the authenticated user's age bracket. Needs authentication.
pub fn authenticated_user_age_bracket_components() -> (r: RequestComponents)
    ensures
        r.needs_auth,
        r.method == Method::Get,
        r.url@ == "https://users.roblox.com/v1/users/authenticated/age-bracket"@,
        r.headers is None,
        r.body is None,
{
    RequestComponents {
        needs_auth: true,
        method: Method::Get,
        url: String::from_str("https://users.roblox.com/v1/users/authenticated/age-bracket"),
        headers: None,
        body: None,
    }
}

/// Looks up the authenticated user's country code. Needs authentication.
pub fn authenticated_user_country_code_components() -> (r: RequestComponents)
    ensures
        r.needs_auth,
        r.method == Method::Get,
        r.url@ == "https://users.roblox.com/v1/users/authenticated/country-code"@,
        r.headers is None,
        r.body is None,
{
    RequestComponents {
        needs_auth: true,
        method: Method::Get,
        url: String::from_str("https://users.roblox.com/v1/users/authenticated/country-code"),
        headers: None,
        body: None,
    }
}

/// Looks up the authenticated user's roles. Needs authentication.
pub fn authenticated_user_roles_components() -> (r: RequestComponents)
    ensures
        r.needs_auth,
        r.method == Method::Get,
        r.url@ == "https://users.roblox.com/v1/users/authenticated/roles"@,
        r.headers is None,
        r.body is None,
{
    RequestComponents {
        needs_auth: true,
        method: Method::Get,
        url: String::from_str("https://users.roblox.com/v1/users/authenticated/roles"),
        headers: None,
        body: None,
    }
}

/// Validates a display name for a user. Needs authentication.
pub fn validate_display_name_components(user_id: usize, display_name: &str) -> (r:
    RequestComponents)
    ensures
        r.needs_auth,
        r.method == Method::Get,
        r.url@ == "https://users.roblox.com/v1/users/"@ + dec_seq(user_id as nat)
            + "/display-names/validate?displayName="@ + display_name@,
        r.headers is None,
        r.body is None,
{
    let mut url = String::from_str("https://users.roblox.com/v1/users/");
    let id_text = usize_to_dec(user_id);
    url.append(id_text.as_str());
    url.append("/display-names/validate?displayName=");
    url.append(display_name);
    proof {
        assert(url@ =~= "https://users.roblox.com/v1/users/"@ + dec_seq(user_id as nat)
            + "/display-names/validate?displayName="@ + display_name@);
    }
    RequestComponents { needs_auth: true, method: Method::Get, url, headers: None, body: None }
}

} // verus!
