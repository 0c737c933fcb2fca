//! Principals and judgements: who is asking, and the binary outcome of a
//! check.

use vstd::prelude::*;

use crate::domain::{
    CreateGroupParams, CreateUserParams, GroupId, UpdateGroupParams, UpdateUserParams, UserId,
};
use crate::engine::GroupEntityRepository;
use crate::error::Error;

verus! {

/// The identity on whose behalf a request is made.
#[derive(Debug, Clone, Copy, PartialEq, Eq, Hash, Structural)]
pub enum Principal {
    Anonymous,
    User(UserId),
}

/// The binary outcome of one authorization check.
#[derive(Debug, Clone, Copy, PartialEq, Eq, Hash, Structural)]
pub enum Judgement {
    Allow,
    Deny,
}

impl Judgement {
    pub fn from_bool(allow: bool) -> (j: Self)
        ensures
            j == Judgement::Allow <==> allow,
    {
        if allow {
            Judgement::Allow
        } else {
            Judgement::Deny
        }
    }

    pub fn into_bool(self) -> (allow: bool)
        ensures
            allow <==> self == Judgement::Allow,
    {
        match self {
            Judgement::Allow => true,
            Judgement::Deny => false,
        }
    }

    /// `Ok` on `Allow`; the given error on `Deny`. Callers gate the
    /// underlying operation with this: it proceeds only on `Allow`.
    pub fn allow_or<E>(self, err: E) -> (r: Result<(), E>)
        ensures
            self == Judgement::Allow ==> (r matches Ok(u) && u == ()),
            self == Judgement::Deny ==> (r matches Err(e) && e == err),
    {
        match self {
            Judgement::Allow => Ok(()),
            Judgement::Deny => Err(err),
        }
    }
}

/// The per-operation check API over user resources. The service layer
/// calls the matching method before performing the operation and
/// proceeds only on `Allow`.
pub trait UserAccessControl {
    fn judge_get_user(&self, by: Principal, user_id: UserId) -> Result<Judgement, Error>;

    fn judge_list_users(&self, by: Principal) -> Result<Judgement, Error>;

    fn judge_create_user(&self, by: Principal, params: &CreateUserParams) -> Result<
        Judgement,
        Error,
    >;

    fn judge_update_user(&self, by: Principal, user_id: UserId, params: &UpdateUserParams) -> Result<
        Judgement,
        Error,
    >;
}

/// The per-operation check API over group resources. Checks that
/// depend on relationships consult the given fact repository for the
/// current authoritative membership.
pub trait GroupAccessControl<R: GroupEntityRepository> {
    fn judge_get_group(&self, repo: &R, by: Principal, group_id: GroupId) -> Result<
        Judgement,
        Error,
    >;

    fn judge_list_groups(&self, repo: &R, by: Principal) -> Result<Judgement, Error>;

    fn judge_create_group(&self, repo: &R, by: Principal, params: &CreateGroupParams) -> Result<
        Judgement,
        Error,
    >;

    fn judge_update_group(
        &self,
        repo: &R,
        by: Principal,
        group_id: GroupId,
        params: &UpdateGroupParams,
    ) -> Result<Judgement, Error>;

    fn judge_update_group_members(
        &self,
        repo: &R,
        by: Principal,
        group_id: GroupId,
        members: &Vec<UserId>,
    ) -> Result<Judgement, Error>;
}

} // verus!
