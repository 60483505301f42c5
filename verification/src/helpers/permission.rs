//! Provisioning of the permission that a user gets on a resource they
//! created.

use indexmap::IndexSet;
use vstd::prelude::*;

use crate::entities::permission::{Permission, PermissionLevel, SpecificPermission, UserTarget};
use crate::entities::target::ResourceTarget;
use crate::entities::user::User;

verus! {

/// The permission row to insert for `user` on `target`, or `None` where none
/// is to be written.
///
/// Administrators have every access implicitly, so for them nothing is
/// written. For any other user the row grants `level` and `specific`, as they
/// were given, to that user alone, and leaves the id to the store. The caller
/// inserts the row once; a failed insert is logged and otherwise ignored,
/// since the resource exists by then.
pub fn create_permission(
    user: &User,
    target: ResourceTarget,
    level: PermissionLevel,
    specific: IndexSet<SpecificPermission>,
) -> (row: Option<Permission>)
    ensures
        user.admin <==> row is None,
        row matches Some(permission) ==> {
            &&& permission.id@ == Seq::<char>::empty()
            &&& permission.user_target == UserTarget::User(user.id)
            &&& permission.resource_target == target
            &&& permission.level == level
            &&& permission.specific == specific
        },
{
    if user.admin {
        return None;
    }
    Some(
        Permission {
            id: String::new(),
            user_target: UserTarget::User(user.id.clone()),
            resource_target: target,
            level,
            specific,
        },
    )
}

} // verus!
