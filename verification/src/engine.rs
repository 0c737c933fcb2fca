//! The access-control engine: compiled policy stores, the per-operation
//! request synthesizer, and the facade the service layer calls before it
//! touches storage.
//!
//! Every check evaluates a freshly synthesized request; no decision is
//! cached or reused across calls. The shared stores are never mutated:
//! the one relationship-dependent rule is bound into a new, call-scoped
//! policy set on every check that needs it.

use vstd::prelude::*;

use crate::domain::{GroupId, UserId};
use crate::entity::{
    distinct_uids, encode_create_group_entity, encode_group_entity, encode_group_id,
    encode_principal_entity, encode_user_entity, encode_user_id, spec_create_group_entity,
    spec_entity_views, spec_group_entity, spec_principal_entity, spec_user_entity, Entities,
    Entity, EntityUid, SpecEntity,
};
use crate::error::Error;
use crate::eval::{evaluate, spec_decision, Request};
use crate::policy::{
    spec_link, Action, ActionConstraint, Annotation, Condition, Effect, Policy, PolicyDef,
    PolicyId, PolicySet, PrincipalConstraint, ResourceConstraint,
};
use crate::rbac::{Judgement, Principal};

verus! {

/// The fact repository the engine consults for relationship-dependent
/// rules: it must return the current authoritative membership of a
/// group, and report a lookup it cannot answer as `Error::Repository`.
/// Any failure makes the whole check fail; missing facts never default
/// to a decision.
pub trait GroupEntityRepository {
    fn get_group_members(&self, id: GroupId) -> Result<Vec<UserId>, Error>;
}

/// The ground rule permitting a user to update their own record.
pub open spec fn spec_update_own_user_rule() -> Policy {
    Policy::Static(
        PolicyDef {
            id: PolicyId::Rule(0),
            effect: Effect::Permit,
            principal: PrincipalConstraint::Any,
            action: ActionConstraint::Is(Action::UpdateUser),
            resource: ResourceConstraint::Any,
            when: Condition::PrincipalIsResource,
        },
    )
}

/// The ground rule permitting anyone to create a user.
pub open spec fn spec_create_user_rule() -> Policy {
    Policy::Static(
        PolicyDef {
            id: PolicyId::Rule(1),
            effect: Effect::Permit,
            principal: PrincipalConstraint::Any,
            action: ActionConstraint::Is(Action::CreateUser),
            resource: ResourceConstraint::Any,
            when: Condition::Always,
        },
    )
}

/// The user store: permit update-user when the principal is the
/// resource, and permit create-user unconditionally.
pub open spec fn spec_user_policy_set() -> Seq<Policy> {
    seq![spec_update_own_user_rule(), spec_create_user_rule()]
}

/// The body of the member-may-update-own-group template. Its principal
/// scope is the open slot; binding fills it with one concrete group.
pub open spec fn spec_member_update_template_def() -> PolicyDef {
    PolicyDef {
        id: PolicyId::Rule(0),
        effect: Effect::Permit,
        principal: PrincipalConstraint::Slot,
        action: ActionConstraint::Is(Action::UpdateGroup),
        resource: ResourceConstraint::Any,
        when: Condition::Always,
    }
}

/// The group store: one template, located by its stable annotation and
/// bound per request to the concrete group id.
pub open spec fn spec_group_policy_set() -> Seq<Policy> {
    seq![
        Policy::Template {
            annotation: Annotation::MemberUpdatesOwnGroup,
            def: spec_member_update_template_def(),
        },
    ]
}

/// Builds the user store.
pub fn user_policy_set() -> (s: PolicySet)
    ensures
        s@ == spec_user_policy_set(),
{
    let mut list: Vec<Policy> = Vec::new();
    list.push(
        Policy::Static(
            PolicyDef {
                id: PolicyId::Rule(0),
                effect: Effect::Permit,
                principal: PrincipalConstraint::Any,
                action: ActionConstraint::Is(Action::UpdateUser),
                resource: ResourceConstraint::Any,
                when: Condition::PrincipalIsResource,
            },
        ),
    );
    list.push(
        Policy::Static(
            PolicyDef {
                id: PolicyId::Rule(1),
                effect: Effect::Permit,
                principal: PrincipalConstraint::Any,
                action: ActionConstraint::Is(Action::CreateUser),
                resource: ResourceConstraint::Any,
                when: Condition::Always,
            },
        ),
    );
    proof {
        assert(list@ =~= spec_user_policy_set());
    }
    PolicySet::from_policies(list)
}

/// Builds the group store.
pub fn group_policy_set() -> (s: PolicySet)
    ensures
        s@ == spec_group_policy_set(),
{
    let mut list: Vec<Policy> = Vec::new();
    list.push(
        Policy::Template {
            annotation: Annotation::MemberUpdatesOwnGroup,
            def: PolicyDef {
                id: PolicyId::Rule(0),
                effect: Effect::Permit,
                principal: PrincipalConstraint::Slot,
                action: ActionConstraint::Is(Action::UpdateGroup),
                resource: ResourceConstraint::Any,
                when: Condition::Always,
            },
        },
    );
    proof {
        assert(list@ =~= spec_group_policy_set());
    }
    PolicySet::from_policies(list)
}

/// The access-control engine: one immutable store per resource kind,
/// loaded once at startup and shared read-only between checks.
#[derive(Debug, Clone)]
pub struct Engine {
    pub user_policies: PolicySet,
    pub group_policies: PolicySet,
}

/// One user-resource operation, as handed to the synthesizer.
#[derive(Debug, Clone, Copy, PartialEq, Eq, Hash, Structural)]
pub enum UserRequest {
    Get(UserId),
    List,
    Create,
    Update(UserId),
}

/// The action a user-resource operation evaluates under.
pub open spec fn spec_user_action(r: UserRequest) -> Action {
    match r {
        UserRequest::Get(_) => Action::GetUser,
        UserRequest::List => Action::ListUsers,
        UserRequest::Create => Action::CreateUser,
        UserRequest::Update(_) => Action::UpdateUser,
    }
}

/// The resource a user-resource operation evaluates against: the
/// concrete user, or the fixed placeholder for operations without one.
pub open spec fn spec_user_resource(r: UserRequest) -> EntityUid {
    match r {
        UserRequest::Get(id) => EntityUid::User(Principal::User(id)),
        UserRequest::List => EntityUid::ListUsers,
        UserRequest::Create => EntityUid::CreateUser,
        UserRequest::Update(id) => EntityUid::User(Principal::User(id)),
    }
}

/// The request a user-resource operation synthesizes.
pub open spec fn spec_user_request(by: Principal, r: UserRequest) -> Request {
    Request { principal: by, action: spec_user_action(r), resource: spec_user_resource(r) }
}

/// The facts a user-resource operation gathers: none, except for
/// update-user, which supplies the principal entity and the target
/// user's entity (one entity when they coincide).
pub open spec fn spec_user_facts(by: Principal, r: UserRequest) -> Seq<SpecEntity> {
    match r {
        UserRequest::Update(id) => if by == Principal::User(id) {
            seq![spec_principal_entity(by, Seq::empty())]
        } else {
            seq![
                spec_principal_entity(by, Seq::empty()),
                spec_user_entity(id, Seq::empty()),
            ]
        },
        _ => Seq::empty(),
    }
}

/// One group-resource operation, as handed to the synthesizer. The
/// member lists here are caller-supplied request data, never facts of
/// record.
#[derive(Debug, Clone, PartialEq, Eq)]
pub enum GroupRequest {
    Get(GroupId),
    List,
    Create { members: Vec<UserId> },
    Update(GroupId),
    UpdateMembers { id: GroupId, members: Vec<UserId> },
}

/// Whether the principal is named in the member list.
pub open spec fn spec_is_member(by: Principal, ms: Seq<UserId>) -> bool {
    by matches Principal::User(u) && ms.contains(u)
}

/// The request one group-resource operation evaluates.
pub open spec fn spec_group_request(
    by: Principal,
    action: Action,
    resource: EntityUid,
) -> Request {
    Request { principal: by, action: action, resource: resource }
}

/// The facts of a create-group check: the principal (without
/// memberships) and the placeholder entity carrying the proposed
/// member list.
pub open spec fn spec_create_group_facts(by: Principal, proposed: Seq<UserId>) -> Seq<SpecEntity> {
    seq![
        spec_principal_entity(by, Seq::empty()),
        spec_create_group_entity(proposed),
    ]
}

/// The facts of an update-group check against the authoritative member
/// list `ms`: the principal, carrying membership of this group exactly
/// when the list names them, and the group entity itself.
pub open spec fn spec_update_group_facts(by: Principal, id: GroupId, ms: Seq<UserId>) -> Seq<
    SpecEntity,
> {
    seq![
        spec_principal_entity(
            by,
            if spec_is_member(by, ms) {
                seq![id]
            } else {
                Seq::empty()
            },
        ),
        spec_group_entity(id, ms),
    ]
}

/// The facts of an update-group-members check: the principal (without
/// memberships) and the group entity with its authoritative member
/// list `ms` — never the caller-supplied payload.
pub open spec fn spec_update_members_facts(by: Principal, id: GroupId, ms: Seq<UserId>) -> Seq<
    SpecEntity,
> {
    seq![
        spec_principal_entity(by, Seq::empty()),
        spec_group_entity(id, ms),
    ]
}

/// Whether the store can serve an update-group check for this group:
/// it holds the member-may-update template and the group's derived
/// rule id is free.
pub open spec fn spec_group_store_linkable(gps: Seq<Policy>, id: GroupId) -> bool {
    spec_link(
        gps,
        Annotation::MemberUpdatesOwnGroup,
        EntityUid::Group(id),
        PolicyId::Linked(id),
    ) is Some
}

/// What one update-group check returns, as a function of the
/// authoritative member list: the store's template is located and
/// bound to this group under its derived id, and the request is
/// evaluated under the extended set; a store without the template
/// fails the check.
pub open spec fn spec_update_group_result(
    gps: Seq<Policy>,
    by: Principal,
    id: GroupId,
    ms: Seq<UserId>,
) -> Result<Judgement, Error> {
    match spec_link(
        gps,
        Annotation::MemberUpdatesOwnGroup,
        EntityUid::Group(id),
        PolicyId::Linked(id),
    ) {
        None => Err(Error::Configuration),
        Some(ps2) => Ok(
            spec_decision(
                ps2,
                spec_group_request(by, Action::UpdateGroup, EntityUid::Group(id)),
                spec_update_group_facts(by, id, ms),
            ),
        ),
    }
}

/// What one update-group-members check decides, as a function of the
/// authoritative member list.
pub open spec fn spec_update_members_decision(
    gps: Seq<Policy>,
    by: Principal,
    id: GroupId,
    ms: Seq<UserId>,
) -> Judgement {
    spec_decision(
        gps,
        spec_group_request(by, Action::UpdateGroupMembers, EntityUid::Group(id)),
        spec_update_members_facts(by, id, ms),
    )
}

impl Engine {
    /// Loads the engine with the compiled default stores.
    pub fn new() -> (r: Result<Engine, Error>)
        ensures
            r matches Ok(e) && e.user_policies@ == spec_user_policy_set() && e.group_policies@
                == spec_group_policy_set(),
    {
        Ok(Engine { user_policies: user_policy_set(), group_policies: group_policy_set() })
    }

    /// Loads the engine with the given stores — the policy source is an
    /// input; the engine never edits it afterwards.
    pub fn with_policy_sets(user_policies: PolicySet, group_policies: PolicySet) -> (e: Engine)
        ensures
            e.user_policies@ == user_policies@,
            e.group_policies@ == group_policies@,
    {
        Engine { user_policies, group_policies }
    }

    /// Synthesizes and evaluates the request of one user-resource
    /// operation against the user store.
    pub fn process_user_request(&self, by: Principal, request: UserRequest) -> (r: Result<
        Judgement,
        Error,
    >)
        ensures
            r matches Ok(j) && j == spec_decision(
                self.user_policies@,
                spec_user_request(by, request),
                spec_user_facts(by, request),
            ),
    {
        let action = match request {
            UserRequest::Get(_) => Action::GetUser,
            UserRequest::List => Action::ListUsers,
            UserRequest::Create => Action::CreateUser,
            UserRequest::Update(_) => Action::UpdateUser,
        };
        let resource = match request {
            UserRequest::Get(id) => encode_user_id(id),
            UserRequest::List => EntityUid::ListUsers,
            UserRequest::Create => EntityUid::CreateUser,
            UserRequest::Update(id) => encode_user_id(id),
        };
        let no_groups: Vec<GroupId> = Vec::new();
        let facts = match request {
            UserRequest::Update(user_id) => {
                let mut list: Vec<Entity> = Vec::new();
                let same = match by {
                    Principal::User(u) => u == user_id,
                    Principal::Anonymous => false,
                };
                list.push(encode_principal_entity(by, &no_groups));
                if !same {
                    list.push(encode_user_entity(user_id, &no_groups));
                }
                proof {
                    if !same {
                        assert(spec_entity_views(list@)[0] == list@[0]@);
                        assert(spec_entity_views(list@)[1] == list@[1]@);
                    }
                    assert(distinct_uids(spec_entity_views(list@)));
                }
                match Entities::from_entities(list) {
                    Ok(es) => es,
                    Err(e) => {
                        return Err(e);
                    },
                }
            },
            _ => Entities::empty(),
        };
        proof {
            assert(facts@ =~~= spec_user_facts(by, request));
        }
        let req = Request::new(by, action, resource);
        let resp = evaluate(&req, &self.user_policies, &facts);
        Ok(resp.decision)
    }

    /// Judges retrieval of one user.
    pub fn judge_get_user(&self, by: Principal, user_id: UserId) -> (r: Result<Judgement, Error>)
        ensures
            r matches Ok(j) && j == spec_decision(
                self.user_policies@,
                spec_user_request(by, UserRequest::Get(user_id)),
                spec_user_facts(by, UserRequest::Get(user_id)),
            ),
    {
        self.process_user_request(by, UserRequest::Get(user_id))
    }

    /// Judges listing of all users.
    pub fn judge_list_users(&self, by: Principal) -> (r: Result<Judgement, Error>)
        ensures
            r matches Ok(j) && j == spec_decision(
                self.user_policies@,
                spec_user_request(by, UserRequest::List),
                spec_user_facts(by, UserRequest::List),
            ),
    {
        self.process_user_request(by, UserRequest::List)
    }

    /// Judges creation of a user.
    pub fn judge_create_user(&self, by: Principal, _params: &crate::domain::CreateUserParams) -> (r:
        Result<Judgement, Error>)
        ensures
            r matches Ok(j) && j == spec_decision(
                self.user_policies@,
                spec_user_request(by, UserRequest::Create),
                spec_user_facts(by, UserRequest::Create),
            ),
    {
        self.process_user_request(by, UserRequest::Create)
    }

    /// Judges an update of one user.
    pub fn judge_update_user(
        &self,
        by: Principal,
        user_id: UserId,
        _params: &crate::domain::UpdateUserParams,
    ) -> (r: Result<Judgement, Error>)
        ensures
            r matches Ok(j) && j == spec_decision(
                self.user_policies@,
                spec_user_request(by, UserRequest::Update(user_id)),
                spec_user_facts(by, UserRequest::Update(user_id)),
            ),
    {
        self.process_user_request(by, UserRequest::Update(user_id))
    }

    /// The update-group check, once the authoritative member list has
    /// been fetched: pure from here on. Locates the template by its
    /// annotation — failing fast when it is absent — binds it to this
    /// group under its stable derived id, and evaluates against facts
    /// in which the caller carries membership of this group exactly
    /// when the authoritative list names them.
    pub fn judge_update_group_with_members(
        &self,
        by: Principal,
        group_id: GroupId,
        members: &Vec<UserId>,
    ) -> (r: Result<Judgement, Error>)
        ensures
            r == spec_update_group_result(self.group_policies@, by, group_id, members@),
    {
        let linked = match self.group_policies.link(
            Annotation::MemberUpdatesOwnGroup,
            encode_group_id(group_id),
            PolicyId::Linked(group_id),
        ) {
            Ok(s) => s,
            Err(e) => {
                return Err(e);
            },
        };
        let is_member = match by {
            Principal::User(u) => crate::eval::contains_user(members, u),
            Principal::Anonymous => false,
        };
        let mut groups: Vec<GroupId> = Vec::new();
        if is_member {
            groups.push(group_id);
        }
        let mut list: Vec<Entity> = Vec::new();
        list.push(encode_principal_entity(by, &groups));
        list.push(encode_group_entity(group_id, members));
        proof {
            assert(spec_entity_views(list@)[0] == list@[0]@);
            assert(spec_entity_views(list@)[1] == list@[1]@);
            assert(distinct_uids(spec_entity_views(list@)));
        }
        let facts = match Entities::from_entities(list) {
            Ok(es) => es,
            Err(e) => {
                return Err(e);
            },
        };
        proof {
            if is_member {
                assert(groups@ =~= seq![group_id]);
            }
            assert(facts@ =~~= spec_update_group_facts(by, group_id, members@));
        }
        let req = Request::new(by, Action::UpdateGroup, encode_group_id(group_id));
        let resp = evaluate(&req, &linked, &facts);
        Ok(resp.decision)
    }

    /// The update-group-members check, once the authoritative member
    /// list has been fetched: pure from here on. The decision is a
    /// function of the authoritative list alone — the caller-supplied
    /// payload plays no part in it.
    pub fn judge_update_group_members_with(
        &self,
        by: Principal,
        group_id: GroupId,
        authoritative: &Vec<UserId>,
    ) -> (j: Judgement)
        ensures
            j == spec_update_members_decision(self.group_policies@, by, group_id, authoritative@),
    {
        let no_groups: Vec<GroupId> = Vec::new();
        let mut list: Vec<Entity> = Vec::new();
        list.push(encode_principal_entity(by, &no_groups));
        list.push(encode_group_entity(group_id, authoritative));
        proof {
            assert(spec_entity_views(list@)[0] == list@[0]@);
            assert(spec_entity_views(list@)[1] == list@[1]@);
            assert(distinct_uids(spec_entity_views(list@)));
        }
        let facts = match Entities::from_entities(list) {
            Ok(es) => es,
            Err(_) => {
                // unreachable: the two identities always differ
                return Judgement::Deny;
            },
        };
        proof {
            assert(facts@ =~~= spec_update_members_facts(by, group_id, authoritative@));
        }
        let req = Request::new(by, Action::UpdateGroupMembers, encode_group_id(group_id));
        let resp = evaluate(&req, &self.group_policies, &facts);
        resp.decision
    }

    /// Synthesizes and evaluates the request of one group-resource
    /// operation. The two relationship-dependent operations fetch the
    /// authoritative member list from the repository first; a
    /// repository failure fails the whole check.
    pub fn process_group_request<R: GroupEntityRepository>(
        &self,
        repo: &R,
        by: Principal,
        request: &GroupRequest,
    ) -> (r: Result<Judgement, Error>)
        ensures
            *request matches GroupRequest::Get(id) ==> r matches Ok(j) && j == spec_decision(
                self.group_policies@,
                spec_group_request(by, Action::GetGroup, EntityUid::Group(id)),
                Seq::empty(),
            ),
            *request matches GroupRequest::List ==> r matches Ok(j) && j == spec_decision(
                self.group_policies@,
                spec_group_request(by, Action::ListGroups, EntityUid::ListGroups),
                Seq::empty(),
            ),
            *request matches GroupRequest::Create { members } ==> r matches Ok(j) && j
                == spec_decision(
                self.group_policies@,
                spec_group_request(by, Action::CreateGroup, EntityUid::CreateGroup),
                spec_create_group_facts(by, members@),
            ),
            *request matches GroupRequest::Update(id) ==> match r {
                Ok(j) => spec_group_store_linkable(self.group_policies@, id) && exists|
                    ms: Seq<UserId>,
                |
                    spec_update_group_result(self.group_policies@, by, id, ms) == Ok::<
                        Judgement,
                        Error,
                    >(j),
                Err(e) => (e == Error::Repository || e == Error::Configuration) && (e
                    == Error::Configuration ==> !spec_group_store_linkable(
                    self.group_policies@,
                    id,
                )),
            },
            *request matches GroupRequest::UpdateMembers { id, members } ==> match r {
                Ok(j) => exists|ms: Seq<UserId>|
                    spec_update_members_decision(self.group_policies@, by, id, ms) == j,
                Err(e) => e == Error::Repository,
            },
    {
        match request {
            GroupRequest::Get(id) => {
                let req = Request::new(by, Action::GetGroup, encode_group_id(*id));
                let facts = Entities::empty();
                let resp = evaluate(&req, &self.group_policies, &facts);
                Ok(resp.decision)
            },
            GroupRequest::List => {
                let req = Request::new(by, Action::ListGroups, EntityUid::ListGroups);
                let facts = Entities::empty();
                let resp = evaluate(&req, &self.group_policies, &facts);
                Ok(resp.decision)
            },
            GroupRequest::Create { members } => {
                let no_groups: Vec<GroupId> = Vec::new();
                let mut list: Vec<Entity> = Vec::new();
                list.push(encode_principal_entity(by, &no_groups));
                list.push(encode_create_group_entity(members));
                proof {
                    assert(spec_entity_views(list@)[0] == list@[0]@);
                    assert(spec_entity_views(list@)[1] == list@[1]@);
                    assert(distinct_uids(spec_entity_views(list@)));
                }
                let facts = match Entities::from_entities(list) {
                    Ok(es) => es,
                    Err(e) => {
                        return Err(e);
                    },
                };
                proof {
                    assert(facts@ =~~= spec_create_group_facts(by, members@));
                }
                let req = Request::new(by, Action::CreateGroup, EntityUid::CreateGroup);
                let resp = evaluate(&req, &self.group_policies, &facts);
                Ok(resp.decision)
            },
            GroupRequest::Update(id) => {
                let members = match repo.get_group_members(*id) {
                    Ok(ms) => ms,
                    Err(_) => {
                        return Err(Error::Repository);
                    },
                };
                let r = self.judge_update_group_with_members(by, *id, &members);
                proof {
                    if r is Ok {
                        assert(spec_update_group_result(self.group_policies@, by, *id, members@)
                            == Ok::<Judgement, Error>(r->Ok_0));
                    }
                }
                r
            },
            GroupRequest::UpdateMembers { id, members } => {
                let authoritative = match repo.get_group_members(*id) {
                    Ok(ms) => ms,
                    Err(_) => {
                        return Err(Error::Repository);
                    },
                };
                let _ = members;
                let j = self.judge_update_group_members_with(by, *id, &authoritative);
                proof {
                    assert(spec_update_members_decision(self.group_policies@, by, *id, authoritative@)
                        == j);
                }
                Ok(j)
            },
        }
    }

    /// Judges retrieval of one group.
    pub fn judge_get_group<R: GroupEntityRepository>(
        &self,
        repo: &R,
        by: Principal,
        group_id: GroupId,
    ) -> (r: Result<Judgement, Error>)
        ensures
            r matches Ok(j) && j == spec_decision(
                self.group_policies@,
                spec_group_request(by, Action::GetGroup, EntityUid::Group(group_id)),
                Seq::empty(),
            ),
    {
        self.process_group_request(repo, by, &GroupRequest::Get(group_id))
    }

    /// Judges listing of all groups.
    pub fn judge_list_groups<R: GroupEntityRepository>(&self, repo: &R, by: Principal) -> (r:
        Result<Judgement, Error>)
        ensures
            r matches Ok(j) && j == spec_decision(
                self.group_policies@,
                spec_group_request(by, Action::ListGroups, EntityUid::ListGroups),
                Seq::empty(),
            ),
    {
        self.process_group_request(repo, by, &GroupRequest::List)
    }

    /// Judges creation of a group. The proposed member list rides along
    /// as request data on the placeholder entity; it is not validated
    /// against the membership store.
    pub fn judge_create_group<R: GroupEntityRepository>(
        &self,
        repo: &R,
        by: Principal,
        params: &crate::domain::CreateGroupParams,
    ) -> (r: Result<Judgement, Error>)
        ensures
            r matches Ok(j) && j == spec_decision(
                self.group_policies@,
                spec_group_request(by, Action::CreateGroup, EntityUid::CreateGroup),
                spec_create_group_facts(by, params.members@),
            ),
    {
        let members = crate::entity::encode_group_members(&params.members);
        self.process_group_request(repo, by, &GroupRequest::Create { members })
    }

    /// Judges an update of one group: the relationship-dependent check.
    /// The authoritative member list is fetched from the repository —
    /// never taken from the caller — and the member-may-update template
    /// is bound to this group for this one evaluation.
    pub fn judge_update_group<R: GroupEntityRepository>(
        &self,
        repo: &R,
        by: Principal,
        group_id: GroupId,
        _params: &crate::domain::UpdateGroupParams,
    ) -> (r: Result<Judgement, Error>)
        ensures
            r matches Ok(j) ==> spec_group_store_linkable(self.group_policies@, group_id)
                && exists|ms: Seq<UserId>|
                spec_update_group_result(self.group_policies@, by, group_id, ms) == Ok::<
                    Judgement,
                    Error,
                >(j),
            r matches Err(e) ==> (e == Error::Repository || e == Error::Configuration) && (e
                == Error::Configuration ==> !spec_group_store_linkable(
                self.group_policies@,
                group_id,
            )),
    {
        self.process_group_request(repo, by, &GroupRequest::Update(group_id))
    }

    /// Judges an update of one group's member list. The facts are the
    /// repository's current membership; the caller-supplied list is
    /// request data only and never enters the evaluation.
    pub fn judge_update_group_members<R: GroupEntityRepository>(
        &self,
        repo: &R,
        by: Principal,
        group_id: GroupId,
        members: &Vec<UserId>,
    ) -> (r: Result<Judgement, Error>)
        ensures
            r matches Ok(j) ==> exists|ms: Seq<UserId>|
                spec_update_members_decision(self.group_policies@, by, group_id, ms) == j,
            r matches Err(e) ==> e == Error::Repository,
    {
        let payload = crate::entity::encode_group_members(members);
        self.process_group_request(
            repo,
            by,
            &GroupRequest::UpdateMembers { id: group_id, members: payload },
        )
    }
}

impl crate::rbac::UserAccessControl for Engine {
    fn judge_get_user(&self, by: Principal, user_id: UserId) -> Result<Judgement, Error> {
        Engine::judge_get_user(self, by, user_id)
    }

    fn judge_list_users(&self, by: Principal) -> Result<Judgement, Error> {
        Engine::judge_list_users(self, by)
    }

    fn judge_create_user(&self, by: Principal, params: &crate::domain::CreateUserParams) -> Result<
        Judgement,
        Error,
    > {
        Engine::judge_create_user(self, by, params)
    }

    fn judge_update_user(
        &self,
        by: Principal,
        user_id: UserId,
        params: &crate::domain::UpdateUserParams,
    ) -> Result<Judgement, Error> {
        Engine::judge_update_user(self, by, user_id, params)
    }
}

impl<R: GroupEntityRepository> crate::rbac::GroupAccessControl<R> for Engine {
    fn judge_get_group(&self, repo: &R, by: Principal, group_id: GroupId) -> Result<
        Judgement,
        Error,
    > {
        Engine::judge_get_group(self, repo, by, group_id)
    }

    fn judge_list_groups(&self, repo: &R, by: Principal) -> Result<Judgement, Error> {
        Engine::judge_list_groups(self, repo, by)
    }

    fn judge_create_group(
        &self,
        repo: &R,
        by: Principal,
        params: &crate::domain::CreateGroupParams,
    ) -> Result<Judgement, Error> {
        Engine::judge_create_group(self, repo, by, params)
    }

    fn judge_update_group(
        &self,
        repo: &R,
        by: Principal,
        group_id: GroupId,
        params: &crate::domain::UpdateGroupParams,
    ) -> Result<Judgement, Error> {
        Engine::judge_update_group(self, repo, by, group_id, params)
    }

    fn judge_update_group_members(
        &self,
        repo: &R,
        by: Principal,
        group_id: GroupId,
        members: &Vec<UserId>,
    ) -> Result<Judgement, Error> {
        Engine::judge_update_group_members(self, repo, by, group_id, members)
    }
}

} // verus!
