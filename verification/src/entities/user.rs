//! Users.

use vstd::prelude::*;

verus! {

/// A user of the control plane.
#[derive(Debug, Clone)]
pub struct User {
    /// The store-assigned id.
    pub id: String,
    /// The name the user logs in with.
    pub username: String,
    /// Whether the user is an administrator. Administrators have every
    /// access implicitly, without permission rows.
    pub admin: bool,
}

} // verus!
