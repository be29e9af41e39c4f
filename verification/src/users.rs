use vstd::prelude::*;

use crate::auth::UserRole;
use crate::paging::{page_or_default, per_page_or_default};

verus! {

/// The request to give a user another role.
#[derive(Debug)]
pub struct UserRoleUpdateRequest {
    pub role: UserRole,
}

/// The request to activate or block a user.
#[derive(Debug)]
pub struct UserBlockRequest {
    pub is_active: bool,
}

/// Filters of the user list.
#[derive(Debug)]
pub struct UsersFilterParams {
    pub page: Option<u32>,
    pub per_page: Option<u32>,
    pub search: Option<String>,
    pub role: Option<UserRole>,
    pub is_active: Option<bool>,
}

impl UsersFilterParams {
    pub fn page(&self) -> (r: u32)
        ensures
            r == match self.page {
                Some(p) => p,
                None => 1u32,
            },
    {
        page_or_default(self.page)
    }

    pub fn per_page(&self) -> (r: u32)
        ensures
            r == match self.per_page {
                Some(p) => p,
                None => 20u32,
            },
    {
        per_page_or_default(self.per_page)
    }

    /// The role code to filter on, if a role was given.
    pub fn role_code(&self) -> (r: Option<&'static str>)
        ensures
            match self.role {
                Some(role) => r matches Some(c) && c@ == role.code(),
                None => r is None,
            },
    {
        match self.role {
            Some(role) => Some(role.as_str()),
            None => None,
        }
    }
}

/// Whether changing a user's active state must revoke the user's tokens:
/// exactly when the user is blocked.
pub fn revokes_tokens(is_active: bool) -> (r: bool)
    ensures
        r == !is_active,
{
    !is_active
}

} // verus!
