//! User-related response shapes.

use crate::structs::Page;
use vstd::prelude::*;

verus! {

/// Contains the expanded set of user info provided by the platform.
#[derive(Debug, Clone, PartialEq, Eq)]
pub struct UserInfo {
    pub description: String,
    pub created: String,
    pub is_banned: bool,
    pub external_app_display_name: Option<String>,
    pub has_verified_badge: bool,
    pub id: usize,
    pub name: String,
    pub display_name: String,
}

/// Contains minimal information about the authenticated user.
#[derive(Debug, Clone, PartialEq, Eq)]
pub struct MinimalAuthenticatedUser {
    pub id: usize,
    pub name: String,
    pub display_name: String,
}

/// Contains information about the authenticated user's age bracket.
#[derive(Debug, Clone, PartialEq, Eq)]
pub struct AuthenticatedUserAgeBracket {
    pub age_bracket: usize,
}

/// Contains information about the authenticated user's country code.
#[derive(Debug, Clone, PartialEq, Eq)]
pub struct AuthenticatedUserCountryCode {
    pub country_code: String,
}

/// Contains the authenticated user's roles.
#[derive(Debug, Clone, PartialEq, Eq)]
pub struct AuthenticatedUserRoles {
    pub roles: Vec<String>,
}

/// Contains a minimal set of user info provided by the platform. Used
/// whenever a small amount of user info is returned as part of a larger
/// body.
#[derive(Debug, Clone, PartialEq, Eq)]
pub struct MinimalUserInfo {
    pub display_name: String,
    pub has_verified_badge: bool,
    pub id: usize,
    pub name: String,
}

/// Contains a minimal set of user info, along with the username that was
/// requested to search by.
#[derive(Debug, Clone, PartialEq, Eq)]
pub struct MinimalUserInfoWithRequestedName {
    pub requested_username: String,
    pub display_name: String,
    pub has_verified_badge: bool,
    pub id: usize,
    pub name: String,
}

/// Contains a minimal set of user info, along with the user's previous
/// usernames.
#[derive(Debug, Clone, PartialEq, Eq)]
pub struct MinimalUserInfoWithPreviousNames {
    pub previous_usernames: Option<Vec<String>>,
    pub display_name: String,
    pub has_verified_badge: bool,
    pub id: usize,
    pub name: String,
}

/// Represents a user's previous username, as one entry of a page of
/// username history.
#[derive(Debug, Clone, PartialEq, Eq)]
pub struct PreviousUsername {
    name: String,
}

impl PreviousUsername {
    /// The username this entry records.
    pub closed spec fn name_seq(&self) -> Seq<char> {
        self.name@
    }

    /// Wraps one previous username.
    pub fn new(name: String) -> (r: Self)
        ensures
            r.name_seq() == name@,
    {
        PreviousUsername { name }
    }
}

/// A page of previous usernames.
pub type PreviousUsernamesPage = Page<PreviousUsername>;

/// A page of user search results.
pub type UserSearchPage = Page<MinimalUserInfoWithPreviousNames>;

} // verus!
