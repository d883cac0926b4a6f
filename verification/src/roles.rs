//! Roles and the rule that makes the first registered user an administrator.

use vstd::prelude::*;

verus! {

/// A role a user may hold.
#[derive(Clone)]
pub struct Role {
    pub name: String,
}

/// The stored identifier of a role.
#[derive(Clone)]
pub struct RoleId {
    pub value: String,
}

/// The name of the role given to the first user.
pub open spec fn admin_role_name() -> Seq<char> {
    "admin"@
}

/// Decides what the listener of registrations does once it knows how many
/// users are stored: when the newcomer is the only user, it looks up the
/// `admin` role (and then grants it); otherwise it does nothing.
pub fn admin_role_request(user_count: u32) -> (r: Option<String>)
    ensures
        user_count == 1 ==> (r matches Some(name) && name@ == admin_role_name()),
        user_count != 1 ==> r is None,
{
    if user_count == 1 {
        Some(String::from_str("admin"))
    } else {
        None
    }
}

} // verus!
