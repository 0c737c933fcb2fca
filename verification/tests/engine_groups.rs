//! The group-resource facade: membership gating, template binding, and
//! fact fidelity.

use authz::domain::{CreateGroupParams, GroupId, UpdateGroupParams, UserId};
use authz::engine::{group_policy_set, user_policy_set, Engine, GroupEntityRepository};
use authz::error::Error;
use authz::policy::{
    Action, ActionConstraint, Condition, Effect, Policy, PolicyDef, PolicyId, PolicySet,
    PrincipalConstraint, ResourceConstraint,
};
use authz::rbac::{Judgement, Principal};

/// A fact repository with one fixed membership answer for every group.
struct FixedRepo {
    members: Vec<UserId>,
}

impl GroupEntityRepository for FixedRepo {
    fn get_group_members(&self, _id: GroupId) -> Result<Vec<UserId>, Error> {
        Ok(self.members.clone())
    }
}

/// A fact repository that always fails.
struct BrokenRepo;

impl GroupEntityRepository for BrokenRepo {
    fn get_group_members(&self, _id: GroupId) -> Result<Vec<UserId>, Error> {
        Err(Error::Repository)
    }
}

fn engine() -> Engine {
    Engine::new().unwrap()
}

fn update_params() -> UpdateGroupParams {
    UpdateGroupParams { name: "renamed".to_string() }
}

#[test]
fn member_may_update_own_group() {
    let u1 = UserId::new(1);
    let g = GroupId::new(10);
    let repo = FixedRepo { members: vec![u1] };
    let r = engine().judge_update_group(&repo, Principal::User(u1), g, &update_params());
    assert_eq!(r, Ok(Judgement::Allow));
}

#[test]
fn non_member_may_not_update_group() {
    let u1 = UserId::new(1);
    let u2 = UserId::new(2);
    let g = GroupId::new(10);
    let repo = FixedRepo { members: vec![u1] };
    let r = engine().judge_update_group(&repo, Principal::User(u2), g, &update_params());
    assert_eq!(r, Ok(Judgement::Deny));
}

#[test]
fn anonymous_may_not_update_group() {
    let u1 = UserId::new(1);
    let g = GroupId::new(10);
    let repo = FixedRepo { members: vec![u1] };
    let r = engine().judge_update_group(&repo, Principal::Anonymous, g, &update_params());
    assert_eq!(r, Ok(Judgement::Deny));
}

#[test]
fn repository_failure_fails_the_check() {
    let g = GroupId::new(10);
    let r = engine().judge_update_group(&BrokenRepo, Principal::User(UserId::new(1)), g, &update_params());
    assert_eq!(r, Err(Error::Repository));
    let r2 = engine().judge_update_group_members(
        &BrokenRepo,
        Principal::User(UserId::new(1)),
        g,
        &vec![UserId::new(1)],
    );
    assert_eq!(r2, Err(Error::Repository));
}

#[test]
fn missing_template_is_a_configuration_error() {
    // A group store without the member-may-update template cannot
    // serve the update-group check: it fails fast, it does not deny.
    let e = Engine::with_policy_sets(user_policy_set(), PolicySet::empty());
    let u1 = UserId::new(1);
    let repo = FixedRepo { members: vec![u1] };
    let r = e.judge_update_group(&repo, Principal::User(u1), GroupId::new(10), &update_params());
    assert_eq!(r, Err(Error::Configuration));
}

#[test]
fn binding_twice_is_stable() {
    // Re-deriving the bound rule for the same group id must not error
    // and must produce the same extended store both times.
    let base = group_policy_set();
    let g = GroupId::new(10);
    let once = base
        .link(
            authz::policy::Annotation::MemberUpdatesOwnGroup,
            authz::entity::EntityUid::Group(g),
            PolicyId::Linked(g),
        )
        .unwrap();
    let again = base
        .link(
            authz::policy::Annotation::MemberUpdatesOwnGroup,
            authz::entity::EntityUid::Group(g),
            PolicyId::Linked(g),
        )
        .unwrap();
    assert_eq!(once.policies(), again.policies());
}

#[test]
fn linking_into_an_already_linked_set_is_refused() {
    // Each check binds from the shared base store. Binding into the
    // result of a previous binding would reuse the derived id, and the
    // store refuses that.
    let base = group_policy_set();
    let g = GroupId::new(10);
    let once = base
        .link(
            authz::policy::Annotation::MemberUpdatesOwnGroup,
            authz::entity::EntityUid::Group(g),
            PolicyId::Linked(g),
        )
        .unwrap();
    let twice = once.link(
        authz::policy::Annotation::MemberUpdatesOwnGroup,
        authz::entity::EntityUid::Group(g),
        PolicyId::Linked(g),
    );
    assert!(matches!(twice, Err(Error::Configuration)));
}

#[test]
fn repeated_checks_for_one_group_agree() {
    let u1 = UserId::new(1);
    let g = GroupId::new(10);
    let repo = FixedRepo { members: vec![u1] };
    let e = engine();
    let first = e.judge_update_group(&repo, Principal::User(u1), g, &update_params());
    let second = e.judge_update_group(&repo, Principal::User(u1), g, &update_params());
    assert_eq!(first, second);
    assert_eq!(first, Ok(Judgement::Allow));
}

#[test]
fn binding_for_one_group_does_not_leak_to_another() {
    // u1 is a member of g1 but not of g2: the template bound for g1
    // must not make update-group(g2) allowed.
    let u1 = UserId::new(1);
    let g1 = GroupId::new(10);
    let g2 = GroupId::new(20);
    let e = engine();
    let repo_g1 = FixedRepo { members: vec![u1] };
    assert_eq!(
        e.judge_update_group(&repo_g1, Principal::User(u1), g1, &update_params()),
        Ok(Judgement::Allow)
    );
    let repo_g2 = FixedRepo { members: Vec::new() };
    assert_eq!(
        e.judge_update_group(&repo_g2, Principal::User(u1), g2, &update_params()),
        Ok(Judgement::Deny)
    );
}

#[test]
fn group_reads_and_creation_have_no_matching_rule() {
    let e = engine();
    let u1 = UserId::new(1);
    let g = GroupId::new(10);
    let repo = FixedRepo { members: vec![u1] };
    assert_eq!(e.judge_get_group(&repo, Principal::User(u1), g), Ok(Judgement::Deny));
    assert_eq!(e.judge_list_groups(&repo, Principal::Anonymous), Ok(Judgement::Deny));
    let params = CreateGroupParams { name: "fresh".to_string(), members: vec![u1] };
    assert_eq!(e.judge_create_group(&repo, Principal::User(u1), &params), Ok(Judgement::Deny));
}

#[test]
fn update_members_uses_authoritative_facts_not_the_payload() {
    // A store whose update-group-members rule consults the group's
    // member list. The repository says {u1}; the caller's payload says
    // {u2}. The decision tracks the repository: u1 is allowed, u2 is
    // not — even though the payload names u2 and not u1.
    let members_rule = Policy::Static(PolicyDef {
        id: PolicyId::Rule(5),
        effect: Effect::Permit,
        principal: PrincipalConstraint::Any,
        action: ActionConstraint::Is(Action::UpdateGroupMembers),
        resource: ResourceConstraint::Any,
        when: Condition::PrincipalInResourceMembers,
    });
    let mut group_rules = vec![members_rule];
    for p in group_policy_set().policies() {
        group_rules.push(*p);
    }
    let e = Engine::with_policy_sets(user_policy_set(), PolicySet::from_policies(group_rules));
    let u1 = UserId::new(1);
    let u2 = UserId::new(2);
    let g = GroupId::new(10);
    let repo = FixedRepo { members: vec![u1] };
    let payload = vec![u2];
    assert_eq!(
        e.judge_update_group_members(&repo, Principal::User(u1), g, &payload),
        Ok(Judgement::Allow)
    );
    assert_eq!(
        e.judge_update_group_members(&repo, Principal::User(u2), g, &payload),
        Ok(Judgement::Deny)
    );
}

#[test]
fn update_members_under_the_shipped_store_is_denied() {
    // The shipped store leaves update-group-members without a rule of
    // its own: default-deny applies whoever asks.
    let u1 = UserId::new(1);
    let g = GroupId::new(10);
    let repo = FixedRepo { members: vec![u1] };
    let r = engine().judge_update_group_members(&repo, Principal::User(u1), g, &vec![u1]);
    assert_eq!(r, Ok(Judgement::Deny));
}
