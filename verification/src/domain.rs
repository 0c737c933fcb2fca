//! Domain value types: users, groups, and the parameters of the
//! operations the service exposes on them.
//!
//! Identifiers are opaque 128-bit values (time-ordered, globally unique;
//! the transport layer renders them in their canonical text form).

use vstd::prelude::*;

verus! {

/// Opaque identifier of a user.
#[derive(Debug, Clone, Copy, PartialEq, Eq, Hash, Structural)]
pub struct UserId(pub u128);

impl UserId {
    pub fn new(inner: u128) -> (s: Self)
        ensures
            s.0 == inner,
    {
        UserId(inner)
    }

    pub fn into_inner(self) -> (r: u128)
        ensures
            r == self.0,
    {
        self.0
    }
}

/// Opaque identifier of a group.
#[derive(Debug, Clone, Copy, PartialEq, Eq, Hash, Structural)]
pub struct GroupId(pub u128);

impl GroupId {
    pub fn new(inner: u128) -> (s: Self)
        ensures
            s.0 == inner,
    {
        GroupId(inner)
    }

    pub fn into_inner(self) -> (r: u128)
        ensures
            r == self.0,
    {
        self.0
    }
}

/// A point in time, in microseconds since the Unix epoch.
#[derive(Debug, Clone, Copy, PartialEq, Eq, Hash, Structural)]
pub struct Timestamp(pub i64);

/// A stored user record.
#[derive(Debug, Clone, PartialEq, Eq)]
pub struct User {
    pub id: UserId,
    pub name: String,
    pub created_at: Timestamp,
    pub updated_at: Timestamp,
}

/// Parameters of the create-user operation.
#[derive(Debug, Clone, PartialEq, Eq)]
pub struct CreateUserParams {
    pub name: String,
}

/// Parameters of the update-user operation.
#[derive(Debug, Clone, PartialEq, Eq)]
pub struct UpdateUserParams {
    pub name: String,
}

/// A stored group record without its member list.
#[derive(Debug, Clone, PartialEq, Eq)]
pub struct GroupCore {
    pub id: GroupId,
    pub name: String,
    pub created_at: Timestamp,
    pub updated_at: Timestamp,
}

/// A stored group record with its member list.
#[derive(Debug, Clone, PartialEq, Eq)]
pub struct Group {
    pub id: GroupId,
    pub name: String,
    pub created_at: Timestamp,
    pub updated_at: Timestamp,
    pub members: Vec<UserId>,
}

/// Parameters of the create-group operation. The member list is the
/// caller's proposal: request data, not a fact of record.
#[derive(Debug, Clone, PartialEq, Eq)]
pub struct CreateGroupParams {
    pub name: String,
    pub members: Vec<UserId>,
}

/// Parameters of the update-group operation.
#[derive(Debug, Clone, PartialEq, Eq)]
pub struct UpdateGroupParams {
    pub name: String,
}

} // verus!
