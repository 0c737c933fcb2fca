//! Properties the authorization core guarantees, proved once and for
//! all over the specification functions that the executable contracts
//! are stated in.

use vstd::prelude::*;

use crate::domain::{GroupId, UserId};
use crate::engine::{
    spec_group_policy_set, spec_is_member, spec_member_update_template_def,
    spec_update_group_facts, spec_update_group_result, spec_user_facts, spec_user_policy_set,
    spec_user_request, UserRequest,
};
use crate::entity::{spec_lookup, EntityUid, SpecEntity};
use crate::eval::{
    lemma_decision_push_inert, spec_applies, spec_decision, spec_permit_applies, spec_some_forbid,
    spec_some_permit, Request,
};
use crate::policy::{
    spec_bind, spec_find_template, spec_has_policy_id, spec_link, spec_policy_id, Annotation,
    Condition, Policy, PolicyDef, PolicyId, PrincipalConstraint,
};
use crate::rbac::{Judgement, Principal};

verus! {

/// An empty sequence contains nothing.
proof fn lemma_empty_not_contains(s: Seq<EntityUid>, x: EntityUid)
    requires
        s.len() == 0,
    ensures
        !s.contains(x),
{
    if s.contains(x) {
        let i = choose|i: int| 0 <= i < s.len() && s[i] == x;
    }
}

/// Default-deny: when no rule of the set is an applying permit, the
/// decision is deny — for any request and any facts.
pub proof fn lemma_default_deny(ps: Seq<Policy>, req: Request, ents: Seq<SpecEntity>)
    requires
        forall|i: int| 0 <= i < ps.len() ==> !spec_permit_applies(#[trigger] ps[i], req, ents),
    ensures
        spec_decision(ps, req, ents) == Judgement::Deny,
{
    if spec_some_permit(ps, req, ents) {
        let i = choose|i: int| 0 <= i < ps.len() && spec_permit_applies(ps[i], req, ents);
        assert(!spec_permit_applies(ps[i], req, ents));
    }
}

/// A membership-based rule: one whose principal scope requires
/// belonging to a group, or whose condition consults a member list.
pub open spec fn spec_membership_based(d: PolicyDef) -> bool {
    ||| (d.principal matches PrincipalConstraint::InGroup(t) && t matches EntityUid::Group(_))
    ||| d.when == Condition::PrincipalInResourceMembers
}

/// Anonymity floor: the anonymous principal never satisfies a
/// membership-based rule, regardless of which groups exist — its
/// entity is encoded without membership relationships, and no member
/// list names it.
pub proof fn lemma_anonymity_floor(d: PolicyDef, req: Request, ents: Seq<SpecEntity>)
    requires
        spec_membership_based(d),
        req.principal == Principal::Anonymous,
        spec_lookup(ents, EntityUid::User(Principal::Anonymous)) matches Some(e) ==> e.parents.len()
            == 0,
    ensures
        !spec_applies(Policy::Static(d), req, ents),
{
    match d.principal {
        PrincipalConstraint::InGroup(t) => {
            match spec_lookup(ents, EntityUid::User(Principal::Anonymous)) {
                Some(e) => {
                    lemma_empty_not_contains(e.parents, t);
                },
                None => {},
            }
        },
        _ => {},
    }
}

/// Membership gating: under the shipped group store, the update-group
/// check never fails, and allows exactly the principals the
/// authoritative member list names — a non-member or the anonymous
/// principal is denied.
pub proof fn lemma_membership_gating(by: Principal, id: GroupId, ms: Seq<UserId>)
    ensures
        spec_update_group_result(spec_group_policy_set(), by, id, ms) is Ok,
        spec_update_group_result(spec_group_policy_set(), by, id, ms)->Ok_0 == Judgement::Allow
            <==> spec_is_member(by, ms),
{
    let gps = spec_group_policy_set();
    let tdef = spec_member_update_template_def();
    let target = EntityUid::Group(id);
    let lid = PolicyId::Linked(id);
    assert(spec_find_template(gps, Annotation::MemberUpdatesOwnGroup) == Some(tdef));
    assert(!spec_has_policy_id(gps, lid)) by {
        assert(forall|i: int|
            0 <= i < gps.len() ==> spec_policy_id(#[trigger] gps[i]) != lid);
    }
    let bound = Policy::Static(spec_bind(tdef, target, lid));
    let ps2 = gps.push(bound);
    assert(spec_link(gps, Annotation::MemberUpdatesOwnGroup, target, lid) == Some(ps2));
    let req = Request {
        principal: by,
        action: crate::policy::Action::UpdateGroup,
        resource: target,
    };
    let facts = spec_update_group_facts(by, id, ms);
    assert(facts[0].uid == EntityUid::User(by));
    assert(spec_lookup(facts, EntityUid::User(by)) == Some(facts[0]));
    if spec_is_member(by, ms) {
        assert(facts[0].parents == seq![id].map_values(|g: GroupId| EntityUid::Group(g)));
        assert(facts[0].parents[0] == EntityUid::Group(id));
        assert(facts[0].parents.contains(target));
        assert(spec_permit_applies(ps2[1], req, facts));
        assert(spec_some_permit(ps2, req, facts));
        assert(!spec_some_forbid(ps2, req, facts)) by {
            assert(forall|i: int|
                0 <= i < ps2.len() ==> !crate::eval::spec_forbid_applies(
                    #[trigger] ps2[i],
                    req,
                    facts,
                ));
        }
        assert(spec_decision(ps2, req, facts) == Judgement::Allow);
    } else {
        assert(facts[0].parents.len() == 0);
        lemma_empty_not_contains(facts[0].parents, target);
        assert(forall|i: int|
            0 <= i < ps2.len() ==> !spec_permit_applies(#[trigger] ps2[i], req, facts));
        lemma_default_deny(ps2, req, facts);
    }
}

/// The anonymity floor at the update-group check: under the shipped
/// store the anonymous principal is always denied, whatever membership
/// facts exist.
pub proof fn lemma_update_group_anonymous_denied(id: GroupId, ms: Seq<UserId>)
    ensures
        spec_update_group_result(spec_group_policy_set(), Principal::Anonymous, id, ms) == Ok::<
            Judgement,
            crate::error::Error,
        >(Judgement::Deny),
{
    lemma_membership_gating(Principal::Anonymous, id, ms);
}

/// The shipped group store carries no rule for update-group-members —
/// the member-may-update template covers update-group alone — so under
/// it that check is denied for every principal and every member list,
/// by default-deny.
pub proof fn lemma_update_members_default_denied(by: Principal, id: GroupId, ms: Seq<UserId>)
    ensures
        crate::engine::spec_update_members_decision(spec_group_policy_set(), by, id, ms)
            == Judgement::Deny,
{
    let gps = spec_group_policy_set();
    let req = crate::engine::spec_group_request(
        by,
        crate::policy::Action::UpdateGroupMembers,
        EntityUid::Group(id),
    );
    let facts = crate::engine::spec_update_members_facts(by, id, ms);
    assert(forall|i: int| 0 <= i < gps.len() ==> !spec_permit_applies(#[trigger] gps[i], req, facts));
    lemma_default_deny(gps, req, facts);
}

/// Idempotent binding: when the store holds the template and the
/// derived id is not yet taken, binding does not error; and since the
/// bound rule is a pure function of the template, the target and the
/// id, a second binding from the same store re-derives the very same
/// extended set.
pub proof fn lemma_idempotent_binding(
    ps: Seq<Policy>,
    a: Annotation,
    target: EntityUid,
    id: PolicyId,
)
    requires
        spec_find_template(ps, a) is Some,
        !spec_has_policy_id(ps, id),
    ensures
        spec_link(ps, a, target, id) is Some,
        ({
            let once = spec_link(ps, a, target, id);
            let again = if once is Some {
                spec_link(ps, a, target, id)
            } else {
                None
            };
            again == once
        }),
{
}

/// Isolation across groups: the rule bound for one group does not
/// apply to an update-group check synthesized for another group — the
/// facts of that check relate the principal to the checked group only —
/// so its presence cannot change the other check's decision.
pub proof fn lemma_isolation_across_groups(
    ps: Seq<Policy>,
    by: Principal,
    bound_for: GroupId,
    checked: GroupId,
    ms: Seq<UserId>,
)
    requires
        bound_for != checked,
    ensures
        !spec_applies(
            Policy::Static(
                spec_bind(
                    spec_member_update_template_def(),
                    EntityUid::Group(bound_for),
                    PolicyId::Linked(bound_for),
                ),
            ),
            Request {
                principal: by,
                action: crate::policy::Action::UpdateGroup,
                resource: EntityUid::Group(checked),
            },
            spec_update_group_facts(by, checked, ms),
        ),
        spec_decision(
            ps.push(
                Policy::Static(
                    spec_bind(
                        spec_member_update_template_def(),
                        EntityUid::Group(bound_for),
                        PolicyId::Linked(bound_for),
                    ),
                ),
            ),
            Request {
                principal: by,
                action: crate::policy::Action::UpdateGroup,
                resource: EntityUid::Group(checked),
            },
            spec_update_group_facts(by, checked, ms),
        ) == spec_decision(
            ps,
            Request {
                principal: by,
                action: crate::policy::Action::UpdateGroup,
                resource: EntityUid::Group(checked),
            },
            spec_update_group_facts(by, checked, ms),
        ),
{
    let stray = Policy::Static(
        spec_bind(
            spec_member_update_template_def(),
            EntityUid::Group(bound_for),
            PolicyId::Linked(bound_for),
        ),
    );
    let req = Request {
        principal: by,
        action: crate::policy::Action::UpdateGroup,
        resource: EntityUid::Group(checked),
    };
    let facts = spec_update_group_facts(by, checked, ms);
    assert(facts[0].uid == EntityUid::User(by));
    assert(spec_lookup(facts, EntityUid::User(by)) == Some(facts[0]));
    assert(!facts[0].parents.contains(EntityUid::Group(bound_for))) by {
        if spec_is_member(by, ms) {
            assert(facts[0].parents == seq![checked].map_values(|g: GroupId| EntityUid::Group(g)));
            assert(facts[0].parents.len() == 1);
            assert(facts[0].parents[0] == EntityUid::Group(checked));
            if facts[0].parents.contains(EntityUid::Group(bound_for)) {
                let i = choose|i: int|
                    0 <= i < facts[0].parents.len() && facts[0].parents[i] == EntityUid::Group(
                        bound_for,
                    );
                assert(facts[0].parents[i] == EntityUid::Group(checked));
            }
        } else {
            assert(facts[0].parents.len() == 0);
            lemma_empty_not_contains(facts[0].parents, EntityUid::Group(bound_for));
        }
    }
    assert(!spec_applies(stray, req, facts));
    lemma_decision_push_inert(ps, stray, req, facts);
}

/// Under the shipped user store, update-user is allowed exactly when
/// the principal is the target user.
pub proof fn lemma_update_own_user(by: Principal, target: UserId)
    ensures
        spec_decision(
            spec_user_policy_set(),
            spec_user_request(by, UserRequest::Update(target)),
            spec_user_facts(by, UserRequest::Update(target)),
        ) == Judgement::Allow <==> by == Principal::User(target),
{
    let ps = spec_user_policy_set();
    let req = spec_user_request(by, UserRequest::Update(target));
    let facts = spec_user_facts(by, UserRequest::Update(target));
    if by == Principal::User(target) {
        assert(spec_permit_applies(ps[0], req, facts));
        assert(!spec_some_forbid(ps, req, facts)) by {
            assert(forall|i: int|
                0 <= i < ps.len() ==> !crate::eval::spec_forbid_applies(
                    #[trigger] ps[i],
                    req,
                    facts,
                ));
        }
    } else {
        assert(forall|i: int|
            0 <= i < ps.len() ==> !spec_permit_applies(#[trigger] ps[i], req, facts));
        lemma_default_deny(ps, req, facts);
    }
}

/// Under the shipped user store, create-user is allowed for every
/// principal, the anonymous one included.
pub proof fn lemma_create_user_open(by: Principal)
    ensures
        spec_decision(
            spec_user_policy_set(),
            spec_user_request(by, UserRequest::Create),
            spec_user_facts(by, UserRequest::Create),
        ) == Judgement::Allow,
{
    let ps = spec_user_policy_set();
    let req = spec_user_request(by, UserRequest::Create);
    let facts = spec_user_facts(by, UserRequest::Create);
    assert(spec_permit_applies(ps[1], req, facts));
    assert(!spec_some_forbid(ps, req, facts)) by {
        assert(forall|i: int|
            0 <= i < ps.len() ==> !crate::eval::spec_forbid_applies(#[trigger] ps[i], req, facts));
    }
}

/// Under the shipped user store, retrieval of a user is denied for
/// every principal: no rule speaks of that action.
pub proof fn lemma_get_user_denied(by: Principal, target: UserId)
    ensures
        spec_decision(
            spec_user_policy_set(),
            spec_user_request(by, UserRequest::Get(target)),
            spec_user_facts(by, UserRequest::Get(target)),
        ) == Judgement::Deny,
{
    let ps = spec_user_policy_set();
    let req = spec_user_request(by, UserRequest::Get(target));
    let facts = spec_user_facts(by, UserRequest::Get(target));
    assert(forall|i: int|
        0 <= i < ps.len() ==> !spec_permit_applies(#[trigger] ps[i], req, facts));
    lemma_default_deny(ps, req, facts);
}

} // verus!
