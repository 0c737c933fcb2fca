//! The service layer's view of identity: an unauthenticated service
//! acts as the anonymous principal; authenticating it fixes the user
//! it acts for. The service never mutates state itself — it judges,
//! then hands the operation to storage only on `Allow`.

use vstd::prelude::*;

use crate::domain::UserId;
use crate::rbac::Principal;

verus! {

/// The service before any identity is attached: every operation it
/// performs is checked as the anonymous principal.
#[derive(Debug, Clone, Copy)]
pub struct Service(());

impl Service {
    pub fn new() -> (s: Self)
        ensures
            s.principal_spec() == Principal::Anonymous,
    {
        Service(())
    }

    /// The principal this service acts as.
    pub open spec fn principal_spec(&self) -> Principal {
        Principal::Anonymous
    }

    /// The principal this service acts as: always the anonymous one.
    pub fn principal(&self) -> (p: Principal)
        ensures
            p == self.principal_spec(),
            p == Principal::Anonymous,
    {
        Principal::Anonymous
    }
}

/// Attaches an authenticated identity to a service value.
pub trait MakeAuthenticated {
    type Authenticated;

    fn make_authenticated(&self, user_id: UserId) -> Self::Authenticated;
}

/// The service acting for one authenticated user.
#[derive(Debug, Clone, Copy)]
pub struct AuthenticatedService {
    pub service: Service,
    pub user_id: UserId,
}

impl AuthenticatedService {
    /// The principal this service acts as.
    pub open spec fn principal_spec(&self) -> Principal {
        Principal::User(self.user_id)
    }

    /// The principal this service acts as: the authenticated user.
    pub fn principal(&self) -> (p: Principal)
        ensures
            p == self.principal_spec(),
            p == Principal::User(self.user_id),
    {
        Principal::User(self.user_id)
    }
}

impl MakeAuthenticated for Service {
    type Authenticated = AuthenticatedService;

    fn make_authenticated(&self, user_id: UserId) -> Self::Authenticated {
        AuthenticatedService { service: *self, user_id }
    }
}

} // verus!
