//! Group-related response shapes.

use crate::structs::DataWrapper;
use crate::structs::user::MinimalUserInfo;
use vstd::prelude::*;

verus! {

/// Represents a join request to a group.
#[derive(Debug, Clone, PartialEq, Eq)]
pub struct JoinRequest {
    pub requester: MinimalUserInfo,
    pub created: String,
}

/// Represents a role in a group.
#[derive(Debug, Clone, PartialEq, Eq)]
pub struct GroupRole {
    pub id: usize,
    pub name: String,
    pub description: Option<String>,
    pub rank: u8,
    pub member_count: Option<usize>,
}

/// Represents a list of roles in a group.
#[derive(Debug, Clone, PartialEq, Eq)]
pub struct GroupRolesList {
    pub group_id: usize,
    pub roles: Vec<GroupRole>,
}

/// Represents a group that a user is in, containing the group info and
/// info about the user's rank/role in it.
#[derive(Debug, Clone, PartialEq, Eq)]
pub struct UserGroup {
    pub group: UserGroupInfo,
    pub role: UserRoleInGroup,
    pub is_primary_group: bool,
}

/// Contains information about a group's shout, if there is one.
#[derive(Debug, Clone, PartialEq, Eq)]
pub struct GroupShout {
    pub body: String,
    pub poster: MinimalUserInfo,
}

/// Contains all the information about a group.
#[derive(Debug, Clone, PartialEq, Eq)]
pub struct UserGroupInfo {
    pub id: usize,
    pub name: String,
    pub description: String,
    pub owner: MinimalUserInfo,
    pub shout: Option<GroupShout>,
    pub member_count: usize,
    pub is_builders_club_only: bool,
    pub public_entry_allowed: bool,
    pub has_verified_badge: bool,
}

/// Contains information about a user's role in a certain group.
#[derive(Debug, Clone, PartialEq, Eq)]
pub struct UserRoleInGroup {
    pub id: usize,
    pub name: String,
    pub rank: u8,
}

/// Contains information about a member of a group.
#[derive(Debug, Clone, PartialEq, Eq)]
pub struct GroupMemberInfo {
    pub user: MinimalUserInfo,
    pub role: GroupRole,
}

/// The information returned for a single group lookup.
pub type GroupInfo = UserGroupInfo;

/// The list of groups a user is in, with the user's role in each.
pub type UserGroupList = DataWrapper<UserGroup>;

} // verus!
