//! Permission rows: who may do what to which resource.

use std::cmp::Ordering;

use indexmap::IndexSet;
use vstd::prelude::*;
use vstd::std_specs::cmp::PartialOrdSpecImpl;

use crate::entities::target::ResourceTarget;

verus! {

/// `indexmap::IndexSet`: a hash set that keeps its items in the order in
/// which they were first inserted. Nothing is claimed of it here; the library
/// carries such a set through without looking into it.
#[verifier::external_type_specification]
#[verifier::external_body]
#[verifier::reject_recursive_types(T)]
#[verifier::reject_recursive_types(S)]
pub struct ExIndexSet<T, S>(IndexSet<T, S>);

/// Whom a permission is granted to.
#[derive(Debug, Clone, PartialEq, Eq, Hash)]
pub enum UserTarget {
    /// One user, by id.
    User(String),
    /// Every user of a group, by the group's id.
    UserGroup(String),
}

/// The coarse level of a permission, from least to most.
#[derive(Debug, Clone, Copy, PartialEq, Eq, Hash, Ord, Structural)]
pub enum PermissionLevel {
    /// No access.
    NoAccess,
    /// The resource can be seen.
    Read,
    /// The resource can be seen and its actions run.
    Execute,
    /// The resource can be seen, run and changed.
    Write,
}

impl PermissionLevel {
    /// The place of the level in the order of levels: a higher level grants
    /// all that a lower one does.
    pub open spec fn rank(self) -> int {
        match self {
            PermissionLevel::NoAccess => 0,
            PermissionLevel::Read => 1,
            PermissionLevel::Execute => 2,
            PermissionLevel::Write => 3,
        }
    }

    /// The place of the level in the order of levels.
    fn rank_of(&self) -> (rank: u8)
        ensures
            rank == self.rank(),
    {
        match self {
            PermissionLevel::NoAccess => 0,
            PermissionLevel::Read => 1,
            PermissionLevel::Execute => 2,
            PermissionLevel::Write => 3,
        }
    }
}

impl Default for PermissionLevel {
    fn default() -> (level: Self)
        ensures
            level == PermissionLevel::NoAccess,
    {
        PermissionLevel::NoAccess
    }
}

impl PartialOrd for PermissionLevel {
    fn partial_cmp(&self, other: &Self) -> (order: Option<Ordering>) {
        let left = self.rank_of();
        let right = other.rank_of();
        if left < right {
            Some(Ordering::Less)
        } else if left == right {
            Some(Ordering::Equal)
        } else {
            Some(Ordering::Greater)
        }
    }
}

impl PartialOrdSpecImpl for PermissionLevel {
    open spec fn obeys_partial_cmp_spec() -> bool {
        true
    }

    open spec fn partial_cmp_spec(&self, other: &Self) -> Option<Ordering> {
        if self.rank() < other.rank() {
            Some(Ordering::Less)
        } else if self.rank() == other.rank() {
            Some(Ordering::Equal)
        } else {
            Some(Ordering::Greater)
        }
    }
}

/// A fine-grained grant, orthogonal to the level.
#[derive(Debug, Clone, Copy, PartialEq, Eq, Hash, Structural)]
pub enum SpecificPermission {
    /// Terminals may be opened on the resource.
    Terminal,
    /// Containers of the resource may be attached to.
    Attach,
    /// Containers of the resource may be inspected.
    Inspect,
    /// Logs of the resource may be read.
    Logs,
    /// Processes of the resource may be listed.
    Processes,
}

/// One permission row. The store holds at most one row for a pair of user
/// target and resource target.
#[derive(Debug)]
pub struct Permission {
    /// The store-assigned id; empty until the store assigned one.
    pub id: String,
    /// Whom the permission is granted to.
    pub user_target: UserTarget,
    /// The resource that the permission is about.
    pub resource_target: ResourceTarget,
    /// The level granted.
    pub level: PermissionLevel,
    /// The fine-grained grants, in the order in which they were made.
    pub specific: IndexSet<SpecificPermission>,
}

} // verus!
