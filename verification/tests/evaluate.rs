//! The decision engine's semantics: default-deny, permit-union-minus-
//! forbid, and evaluation-error diagnostics.

use authz::domain::{GroupId, UserId};
use authz::entity::{Entities, Entity, EntityUid};
use authz::error::Error;
use authz::eval::{evaluate, Request};
use authz::policy::{
    Action, ActionConstraint, Annotation, Condition, Effect, Policy, PolicyDef, PolicyId,
    PolicySet, PrincipalConstraint, ResourceConstraint,
};
use authz::rbac::{Judgement, Principal};

fn permit(id: u64, action: ActionConstraint, when: Condition) -> Policy {
    Policy::Static(PolicyDef {
        id: PolicyId::Rule(id),
        effect: Effect::Permit,
        principal: PrincipalConstraint::Any,
        action,
        resource: ResourceConstraint::Any,
        when,
    })
}

fn forbid(id: u64, action: ActionConstraint, when: Condition) -> Policy {
    Policy::Static(PolicyDef {
        id: PolicyId::Rule(id),
        effect: Effect::Forbid,
        principal: PrincipalConstraint::Any,
        action,
        resource: ResourceConstraint::Any,
        when,
    })
}

#[test]
fn empty_store_denies_everything() {
    let store = PolicySet::empty();
    let facts = Entities::empty();
    for action in [Action::GetUser, Action::CreateGroup, Action::UpdateGroupMembers] {
        let req = Request::new(Principal::Anonymous, action, EntityUid::ListUsers);
        let resp = evaluate(&req, &store, &facts);
        assert_eq!(resp.decision, Judgement::Deny);
        assert!(resp.errors.is_empty());
    }
}

#[test]
fn unmatched_action_is_denied() {
    let store = PolicySet::from_policies(vec![permit(
        0,
        ActionConstraint::Is(Action::CreateUser),
        Condition::Always,
    )]);
    let req = Request::new(Principal::Anonymous, Action::ListUsers, EntityUid::ListUsers);
    let resp = evaluate(&req, &store, &Entities::empty());
    assert_eq!(resp.decision, Judgement::Deny);
}

#[test]
fn matching_permit_allows() {
    let store = PolicySet::from_policies(vec![permit(
        0,
        ActionConstraint::Is(Action::CreateUser),
        Condition::Always,
    )]);
    let req = Request::new(Principal::Anonymous, Action::CreateUser, EntityUid::CreateUser);
    let resp = evaluate(&req, &store, &Entities::empty());
    assert_eq!(resp.decision, Judgement::Allow);
}

#[test]
fn forbid_overrides_permit() {
    let store = PolicySet::from_policies(vec![
        permit(0, ActionConstraint::Any, Condition::Always),
        forbid(1, ActionConstraint::Is(Action::CreateUser), Condition::Always),
    ]);
    let allowed = Request::new(Principal::Anonymous, Action::ListUsers, EntityUid::ListUsers);
    assert_eq!(evaluate(&allowed, &store, &Entities::empty()).decision, Judgement::Allow);
    let forbidden = Request::new(Principal::Anonymous, Action::CreateUser, EntityUid::CreateUser);
    assert_eq!(evaluate(&forbidden, &store, &Entities::empty()).decision, Judgement::Deny);
}

#[test]
fn unbound_template_never_matches() {
    let template = Policy::Template {
        annotation: Annotation::MemberUpdatesOwnGroup,
        def: PolicyDef {
            id: PolicyId::Rule(0),
            effect: Effect::Permit,
            principal: PrincipalConstraint::Slot,
            action: ActionConstraint::Any,
            when: Condition::Always,
            resource: ResourceConstraint::Any,
        },
    };
    let store = PolicySet::from_policies(vec![template]);
    let req = Request::new(
        Principal::User(UserId::new(1)),
        Action::UpdateGroup,
        EntityUid::Group(GroupId::new(9)),
    );
    assert_eq!(evaluate(&req, &store, &Entities::empty()).decision, Judgement::Deny);
}

#[test]
fn condition_error_downgrades_to_no_applicable_permit() {
    // The rule consults the resource's member list, but the facts hold
    // no entity for the resource: the rule is in error, the decision
    // falls back to deny, and the diagnostics name the rule.
    let store = PolicySet::from_policies(vec![permit(
        7,
        ActionConstraint::Is(Action::UpdateGroupMembers),
        Condition::PrincipalInResourceMembers,
    )]);
    let req = Request::new(
        Principal::User(UserId::new(1)),
        Action::UpdateGroupMembers,
        EntityUid::Group(GroupId::new(9)),
    );
    let resp = evaluate(&req, &store, &Entities::empty());
    assert_eq!(resp.decision, Judgement::Deny);
    assert_eq!(resp.errors, vec![PolicyId::Rule(7)]);
}

#[test]
fn erroring_forbid_does_not_block() {
    let store = PolicySet::from_policies(vec![
        permit(0, ActionConstraint::Any, Condition::Always),
        forbid(1, ActionConstraint::Any, Condition::PrincipalInResourceMembers),
    ]);
    let req = Request::new(Principal::User(UserId::new(1)), Action::GetGroup, EntityUid::Group(
        GroupId::new(2),
    ));
    let resp = evaluate(&req, &store, &Entities::empty());
    assert_eq!(resp.decision, Judgement::Allow);
    assert_eq!(resp.errors, vec![PolicyId::Rule(1)]);
}

#[test]
fn membership_condition_tracks_the_member_list() {
    let g = GroupId::new(5);
    let u1 = UserId::new(1);
    let u2 = UserId::new(2);
    let store = PolicySet::from_policies(vec![permit(
        0,
        ActionConstraint::Is(Action::UpdateGroupMembers),
        Condition::PrincipalInResourceMembers,
    )]);
    let group_entity = Entity {
        uid: EntityUid::Group(g),
        parents: Vec::new(),
        members: vec![u1],
    };
    let facts = Entities::from_entities(vec![group_entity]).unwrap();
    let req_member = Request::new(Principal::User(u1), Action::UpdateGroupMembers, EntityUid::Group(g));
    assert_eq!(evaluate(&req_member, &store, &facts).decision, Judgement::Allow);
    let req_other = Request::new(Principal::User(u2), Action::UpdateGroupMembers, EntityUid::Group(g));
    assert_eq!(evaluate(&req_other, &store, &facts).decision, Judgement::Deny);
    let req_anon = Request::new(Principal::Anonymous, Action::UpdateGroupMembers, EntityUid::Group(g));
    assert_eq!(evaluate(&req_anon, &store, &facts).decision, Judgement::Deny);
}

#[test]
fn anonymous_never_satisfies_membership_scope() {
    // A permit scoped to members of a group, facts in which the group
    // exists and even lists members: the anonymous principal still
    // carries no memberships and is denied.
    let g = GroupId::new(5);
    let store = PolicySet::from_policies(vec![Policy::Static(PolicyDef {
        id: PolicyId::Rule(0),
        effect: Effect::Permit,
        principal: PrincipalConstraint::InGroup(EntityUid::Group(g)),
        action: ActionConstraint::Any,
        resource: ResourceConstraint::Any,
        when: Condition::Always,
    })]);
    let anon_entity = Entity {
        uid: EntityUid::User(Principal::Anonymous),
        parents: Vec::new(),
        members: Vec::new(),
    };
    let group_entity = Entity {
        uid: EntityUid::Group(g),
        parents: Vec::new(),
        members: vec![UserId::new(1)],
    };
    let facts = Entities::from_entities(vec![anon_entity, group_entity]).unwrap();
    let req = Request::new(Principal::Anonymous, Action::UpdateGroup, EntityUid::Group(g));
    assert_eq!(evaluate(&req, &store, &facts).decision, Judgement::Deny);
}

#[test]
fn rule_bound_for_one_group_is_inert_elsewhere() {
    // Bind the member-may-update template for g1, then evaluate an
    // update-group request against g2 under the extended store: the
    // decision is the same as under the base store, while the g1 check
    // itself is allowed for the member.
    let g1 = GroupId::new(1);
    let g2 = GroupId::new(2);
    let u1 = UserId::new(1);
    let base = authz::engine::group_policy_set();
    let linked_g1 = base
        .link(Annotation::MemberUpdatesOwnGroup, EntityUid::Group(g1), PolicyId::Linked(g1))
        .unwrap();

    // facts of the g1 check: u1 is a member of g1
    let principal_g1 = Entity {
        uid: EntityUid::User(Principal::User(u1)),
        parents: vec![EntityUid::Group(g1)],
        members: Vec::new(),
    };
    let group_g1 = Entity { uid: EntityUid::Group(g1), parents: Vec::new(), members: vec![u1] };
    let facts_g1 = Entities::from_entities(vec![principal_g1, group_g1]).unwrap();
    let req_g1 = Request::new(Principal::User(u1), Action::UpdateGroup, EntityUid::Group(g1));
    assert_eq!(evaluate(&req_g1, &linked_g1, &facts_g1).decision, Judgement::Allow);

    // facts of the g2 check: u1 is not a member of g2
    let principal_g2 = Entity {
        uid: EntityUid::User(Principal::User(u1)),
        parents: Vec::new(),
        members: Vec::new(),
    };
    let group_g2 = Entity { uid: EntityUid::Group(g2), parents: Vec::new(), members: Vec::new() };
    let facts_g2 = Entities::from_entities(vec![principal_g2, group_g2]).unwrap();
    let req_g2 = Request::new(Principal::User(u1), Action::UpdateGroup, EntityUid::Group(g2));
    let under_linked = evaluate(&req_g2, &linked_g1, &facts_g2).decision;
    let under_base = evaluate(&req_g2, &base, &facts_g2).decision;
    assert_eq!(under_linked, under_base);
    assert_eq!(under_linked, Judgement::Deny);
}

#[test]
fn duplicate_entity_identities_are_an_encoding_error() {
    let e1 = Entity {
        uid: EntityUid::CreateGroup,
        parents: Vec::new(),
        members: Vec::new(),
    };
    let e2 = Entity {
        uid: EntityUid::CreateGroup,
        parents: Vec::new(),
        members: vec![UserId::new(1)],
    };
    assert!(matches!(Entities::from_entities(vec![e1, e2]), Err(Error::Encoding)));
}

#[test]
fn error_messages_name_the_failure() {
    assert_eq!(Error::Configuration.message(), "policy store configuration error");
    assert_eq!(Error::Encoding.message(), "fact encoding error");
    assert_eq!(Error::Repository.message(), "fact repository failure");
}
