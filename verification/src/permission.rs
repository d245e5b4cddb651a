//! Permission bitfields and overrides.

use vstd::prelude::*;

verus! {

/// Server and channel permission bitfield.
#[derive(Debug, Clone, Copy, PartialEq, Eq, PartialOrd, Ord, Hash)]
pub struct Permission {
    pub bits: u64,
}

/// User-to-user permission bitfield.
#[derive(Debug, Clone, Copy, PartialEq, Eq, PartialOrd, Ord, Hash)]
pub struct UserPermission {
    pub bits: u64,
}

/// Representation of a single permission override
/// as it appears on models and in the database
#[derive(Debug, Clone)]
pub struct OverrideField {
    /// Allow bit flags
    pub a: Permission,
    /// Disallow bit flags
    pub d: Permission,
}

/// Representation of a single permission override
#[derive(Debug, Clone)]
pub struct Override {
    /// Allow bit flags
    pub allow: Permission,
    /// Disallow bit flags
    pub deny: Permission,
}

} // verus!
