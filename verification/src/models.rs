//! The roles and permissions that guard changes to stored descriptions.

use vstd::prelude::*;

verus! {

/// What a user may be allowed to do.
#[derive(Clone, Copy, Debug, PartialEq, Eq, Hash, Structural)]
pub enum PermissionType {
    CreateSpecs,
    ModifyAllSpecs,
    DeleteAllSpecs,
}

/// A named set of permissions.
#[derive(Clone, Copy, Debug, PartialEq, Eq, Hash, Structural)]
pub enum RoleType {
    /// May perform any action.
    Admin,
    /// May create descriptions, and nothing else.
    SpecCreator,
}

} // verus!
