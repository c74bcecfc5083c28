use rustblox::client::Method;
use rustblox::error::RequestError;
use rustblox::routes::{group, user};
use rustblox::structs::group::{GroupRole, GroupRolesList};
use rustblox::structs::SortOrder;

fn json_headers_for(body: &str) -> Option<Vec<(String, String)>> {
    Some(vec![
        ("Content-Length".to_string(), body.len().to_string()),
        ("Content-Type".to_string(), "application/json".to_string()),
    ])
}

#[test]
fn user_info_url() {
    let c = user::user_info_components(100534123);
    assert_eq!(c.url, "https://users.roblox.com/v1/users/100534123");
    assert_eq!(c.method, Method::Get);
    assert!(!c.needs_auth);
    assert!(c.headers.is_none());
    assert!(c.body.is_none());
}

#[test]
fn previous_usernames_url_with_defaults() {
    let c = user::previous_usernames_components(68429027, None, None, None);
    assert_eq!(
        c.url,
        "https://users.roblox.com/v1/users/68429027/username-history?limit=10"
    );
}

#[test]
fn previous_usernames_url_with_everything() {
    let c = user::previous_usernames_components(
        68429027,
        Some(25),
        Some("cursorToken".to_string()),
        Some(SortOrder::Descending),
    );
    assert_eq!(
        c.url,
        "https://users.roblox.com/v1/users/68429027/username-history?limit=25&cursor=cursorToken&sortOrder=Desc"
    );
}

#[test]
fn previous_usernames_url_ascending() {
    let c = user::previous_usernames_components(1, None, None, Some(SortOrder::Ascending));
    assert_eq!(
        c.url,
        "https://users.roblox.com/v1/users/1/username-history?limit=10&sortOrder=Asc"
    );
}

#[test]
fn users_from_ids_body_is_exact() {
    let ids = vec![68429027usize, 665352667];
    let c = user::users_from_ids_components(&ids, true);
    assert_eq!(c.url, "https://users.roblox.com/v1/users");
    assert_eq!(c.method, Method::Post);
    let body = "{\"userIds\":[68429027,665352667],\"excludeBannedUsers\":true}";
    assert_eq!(c.body.as_deref(), Some(body));
    assert_eq!(c.headers, json_headers_for(body));
}

#[test]
fn users_from_ids_body_empty_list() {
    let ids: Vec<usize> = vec![];
    let c = user::users_from_ids_components(&ids, false);
    assert_eq!(c.body.as_deref(), Some("{\"userIds\":[],\"excludeBannedUsers\":false}"));
}

#[test]
fn users_from_usernames_body_escapes_strings() {
    let names = vec!["Aerasto".to_string(), "a\"b\\c\n".to_string()];
    let c = user::users_from_usernames_components(&names, true);
    assert_eq!(c.url, "https://users.roblox.com/v1/usernames/users");
    let body = "{\"usernames\":[\"Aerasto\",\"a\\\"b\\\\c\\u000a\"],\"excludeBannedUsers\":true}";
    assert_eq!(c.body.as_deref(), Some(body));
    assert_eq!(c.headers, json_headers_for(body));
    // The escaped body is what serde_json parses back to the raw names.
    let parsed: serde_json::Value = serde_json::from_str(body).expect("valid JSON");
    assert_eq!(parsed["usernames"][1], serde_json::Value::String("a\"b\\c\n".to_string()));
}

#[test]
fn search_user_url() {
    let c = user::search_user_components("TheWildDeveloper", None, None);
    assert_eq!(
        c.url,
        "https://users.roblox.com/v1/users/search?keyword=TheWildDeveloper&limit=10"
    );
    let c = user::search_user_components("x", Some(3), Some("pageTwo".to_string()));
    assert_eq!(
        c.url,
        "https://users.roblox.com/v1/users/search?keyword=x&limit=3&cursor=pageTwo"
    );
}

#[test]
fn change_display_name_request() {
    let c = user::change_display_name_components(1103782610, "TestingName");
    assert_eq!(c.url, "https://users.roblox.com/v1/users/1103782610/display-names");
    assert_eq!(c.method, Method::Patch);
    assert!(c.needs_auth);
    let body = "{\"newDisplayName\":\"TestingName\"}";
    assert_eq!(c.body.as_deref(), Some(body));
    assert_eq!(c.headers, json_headers_for(body));
}

#[test]
fn authenticated_user_urls() {
    assert_eq!(
        user::authenticated_user_components().url,
        "https://users.roblox.com/v1/users/authenticated"
    );
    assert_eq!(
        user::authenticated_user_age_bracket_components().url,
        "https://users.roblox.com/v1/users/authenticated/age-bracket"
    );
    assert_eq!(
        user::authenticated_user_country_code_components().url,
        "https://users.roblox.com/v1/users/authenticated/country-code"
    );
    assert_eq!(
        user::authenticated_user_roles_components().url,
        "https://users.roblox.com/v1/users/authenticated/roles"
    );
    assert!(user::authenticated_user_components().needs_auth);
}

#[test]
fn validate_display_name_url() {
    let c = user::validate_display_name_components(1103782610, "TestingName");
    assert_eq!(
        c.url,
        "https://users.roblox.com/v1/users/1103782610/display-names/validate?displayName=TestingName"
    );
    assert!(c.needs_auth);
}

#[test]
fn group_info_url() {
    let c = group::group_info_components(5684648);
    assert_eq!(c.url, "https://groups.roblox.com/v1/groups/5684648");
    assert!(!c.needs_auth);
}

#[test]
fn group_members_url_with_paging() {
    let c = group::group_members_components(
        5681740,
        Some(50),
        Some("abc".to_string()),
        Some(SortOrder::Ascending),
    );
    assert_eq!(
        c.url,
        "https://groups.roblox.com/v1/groups/5681740/users?limit=50&cursor=abc&sortOrder=Asc"
    );
}

#[test]
fn group_roles_url() {
    let c = group::group_roles_components(5681740);
    assert_eq!(c.url, "https://groups.roblox.com/v1/groups/5681740/roles");
}

#[test]
fn group_role_members_url() {
    let c = group::group_role_members_components(5681740, 85311978, None, None, None);
    assert_eq!(
        c.url,
        "https://groups.roblox.com/v1/groups/5681740/roles/85311978/users?limit=10"
    );
}

#[test]
fn user_group_roles_url() {
    let c = group::user_group_roles_components(68429027);
    assert_eq!(c.url, "https://groups.roblox.com/v1/users/68429027/groups/roles");
}

#[test]
fn join_request_endpoints() {
    let accept = group::accept_join_request_components(5681740, 1115834788);
    assert_eq!(
        accept.url,
        "https://groups.roblox.com/v1/groups/5681740/join-requests/users/1115834788"
    );
    assert_eq!(accept.method, Method::Post);
    assert!(accept.needs_auth);
    assert_eq!(
        accept.headers,
        Some(vec![("Content-Length".to_string(), "0".to_string())])
    );

    let deny = group::deny_join_request_components(5681740, 1167483749);
    assert_eq!(deny.method, Method::Delete);
    assert_eq!(
        deny.url,
        "https://groups.roblox.com/v1/groups/5681740/join-requests/users/1167483749"
    );

    let get = group::user_join_request_components(5681740, 1115834788);
    assert_eq!(get.method, Method::Get);

    let batch_get = group::batch_get_requests_components(5681740);
    assert_eq!(batch_get.url, "https://groups.roblox.com/v1/groups/5681740/join-requests");
    assert_eq!(batch_get.method, Method::Get);
    let batch_accept = group::batch_accept_requests_components(5681740);
    assert_eq!(batch_accept.method, Method::Post);
    let batch_deny = group::batch_deny_requests_components(5681740);
    assert_eq!(batch_deny.method, Method::Delete);
}

#[test]
fn kick_user_url() {
    let c = group::kick_user_components(5681740, 1115834788);
    assert_eq!(c.url, "https://groups.roblox.com/v1/groups/5681740/users/1115834788");
    assert_eq!(c.method, Method::Delete);
    assert!(c.needs_auth);
}

fn role(id: usize, rank: u8) -> GroupRole {
    GroupRole { id, name: format!("rank-{rank}"), description: None, rank, member_count: None }
}

#[test]
fn set_user_role_picks_the_first_matching_rank() {
    let roles = GroupRolesList {
        group_id: 5681740,
        roles: vec![role(11, 1), role(22, 6), role(33, 6)],
    };
    let c = group::set_user_role_plan(5681740, 1115834788, 6, &roles).expect("rank exists");
    assert_eq!(c.url, "https://groups.roblox.com/v1/groups/5681740/users/1115834788");
    assert_eq!(c.method, Method::Patch);
    let body = "{\"roleId\":22}";
    assert_eq!(c.body.as_deref(), Some(body));
    assert_eq!(c.headers, json_headers_for(body));
}

#[test]
fn set_user_role_with_unknown_rank_is_the_invalid_roleset_error() {
    let roles = GroupRolesList { group_id: 5681740, roles: vec![role(11, 1)] };
    let err = group::set_user_role_plan(5681740, 1115834788, 9, &roles)
        .expect_err("no role holds rank 9");
    match err {
        RequestError::ClientError(url, status, errors) => {
            assert_eq!(url, "https://groups.roblox.com/v1/groups/5681740/users/1115834788");
            assert_eq!(status, 400);
            assert_eq!(errors.errors.len(), 1);
            assert_eq!(errors.errors[0].code, 2);
            assert_eq!(errors.errors[0].message, "The roleset is invalid or does not exist.");
        }
        other => panic!("expected ClientError, got {:?}", other),
    }
}
