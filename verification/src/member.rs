//! Server membership records.

use vstd::prelude::*;

verus! {

/// Composite primary key consisting of server and user id
#[derive(Debug, Clone, Eq, PartialEq, Hash)]
pub struct MemberCompositeKey {
    /// Server Id
    pub server: String,
    /// User Id
    pub user: String,
}

/// Optional fields on server member object
#[derive(Debug, PartialEq, Clone)]
pub enum FieldsMember {
    Nickname,
    Avatar,
    Roles,
    Timeout,
}

} // verus!
