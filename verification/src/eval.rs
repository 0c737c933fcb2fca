//! The decision engine: evaluates one request against a policy set and
//! a fact set.
//!
//! The semantics are default-deny and permit-union-minus-forbid: a
//! request is allowed exactly when at least one ground permit rule
//! matches and no ground forbid rule matches. A rule whose condition
//! cannot be evaluated against the facts contributes nothing to the
//! decision — an evaluation error downgrades to "no applicable rule",
//! composing safely with default-deny — and is reported as a diagnostic.

use vstd::prelude::*;

use crate::entity::{spec_in_parents, spec_lookup, spec_principal_uid, Entities, EntityUid, SpecEntity};
use crate::policy::{
    Action, ActionConstraint, Condition, Effect, Policy, PolicyDef, PolicyId, PolicySet,
    PrincipalConstraint, ResourceConstraint,
};
use crate::rbac::{Judgement, Principal};

verus! {

/// One evaluation request: who asks to do what to which resource.
#[derive(Debug, Clone, Copy, PartialEq, Eq, Hash, Structural)]
pub struct Request {
    pub principal: Principal,
    pub action: Action,
    pub resource: EntityUid,
}

impl Request {
    pub fn new(principal: Principal, action: Action, resource: EntityUid) -> (r: Request)
        ensures
            r.principal == principal,
            r.action == action,
            r.resource == resource,
    {
        Request { principal, action, resource }
    }
}

/// The outcome of one evaluation: the decision, plus the ids of the
/// rules whose conditions could not be evaluated against the facts.
/// The diagnostics are auditable output; they never change the
/// decision beyond the rule in error not matching.
#[derive(Debug, Clone, PartialEq, Eq)]
pub struct Response {
    pub decision: Judgement,
    pub errors: Vec<PolicyId>,
}

/// Whether the principal scope of a rule matches the request under the
/// given facts. `InGroup(t)` holds when the principal is `t` itself or
/// its encoded entity records membership of `t`; an unbound `Slot`
/// matches nothing.
pub open spec fn spec_principal_matches(
    c: PrincipalConstraint,
    req: Request,
    ents: Seq<SpecEntity>,
) -> bool {
    match c {
        PrincipalConstraint::Any => true,
        PrincipalConstraint::Is(u) => spec_principal_uid(req.principal) == u,
        PrincipalConstraint::InGroup(t) => spec_principal_uid(req.principal) == t
            || spec_in_parents(ents, spec_principal_uid(req.principal), t),
        PrincipalConstraint::Slot => false,
    }
}

/// Whether the action scope of a rule matches the request.
pub open spec fn spec_action_matches(c: ActionConstraint, req: Request) -> bool {
    match c {
        ActionConstraint::Any => true,
        ActionConstraint::Is(a) => req.action == a,
    }
}

/// Whether the resource scope of a rule matches the request.
pub open spec fn spec_resource_matches(c: ResourceConstraint, req: Request) -> bool {
    match c {
        ResourceConstraint::Any => true,
        ResourceConstraint::Is(u) => req.resource == u,
    }
}

/// Whether the whole scope of a rule matches the request.
pub open spec fn spec_scope_matches(d: PolicyDef, req: Request, ents: Seq<SpecEntity>) -> bool {
    &&& spec_principal_matches(d.principal, req, ents)
    &&& spec_action_matches(d.action, req)
    &&& spec_resource_matches(d.resource, req)
}

/// Whether the condition of a rule can be evaluated against the facts.
/// Only a condition that consults the resource entity can fail, namely
/// when that entity is absent.
pub open spec fn spec_condition_evaluable(c: Condition, req: Request, ents: Seq<SpecEntity>) -> bool {
    match c {
        Condition::Always => true,
        Condition::PrincipalIsResource => true,
        Condition::PrincipalInResourceMembers => spec_lookup(ents, req.resource) is Some,
    }
}

/// Whether the condition of a rule holds, given that it is evaluable.
pub open spec fn spec_condition_holds(c: Condition, req: Request, ents: Seq<SpecEntity>) -> bool {
    match c {
        Condition::Always => true,
        Condition::PrincipalIsResource => spec_principal_uid(req.principal) == req.resource,
        Condition::PrincipalInResourceMembers => match spec_lookup(ents, req.resource) {
            Some(e) => req.principal matches Principal::User(u) && e.members.contains(u),
            None => false,
        },
    }
}

/// Whether a ground rule applies to the request: its scope matches and
/// its condition evaluates and holds. Templates never apply.
pub open spec fn spec_applies(p: Policy, req: Request, ents: Seq<SpecEntity>) -> bool {
    match p {
        Policy::Static(d) => spec_scope_matches(d, req, ents) && spec_condition_evaluable(
            d.when,
            req,
            ents,
        ) && spec_condition_holds(d.when, req, ents),
        Policy::Template { annotation, def } => false,
    }
}

/// A permit rule that applies.
pub open spec fn spec_permit_applies(p: Policy, req: Request, ents: Seq<SpecEntity>) -> bool {
    p matches Policy::Static(d) && d.effect == Effect::Permit && spec_applies(p, req, ents)
}

/// A forbid rule that applies.
pub open spec fn spec_forbid_applies(p: Policy, req: Request, ents: Seq<SpecEntity>) -> bool {
    p matches Policy::Static(d) && d.effect == Effect::Forbid && spec_applies(p, req, ents)
}

/// Whether some rule of the set is an applying permit.
pub open spec fn spec_some_permit(ps: Seq<Policy>, req: Request, ents: Seq<SpecEntity>) -> bool {
    exists|i: int| 0 <= i < ps.len() && spec_permit_applies(#[trigger] ps[i], req, ents)
}

/// Whether some rule of the set is an applying forbid.
pub open spec fn spec_some_forbid(ps: Seq<Policy>, req: Request, ents: Seq<SpecEntity>) -> bool {
    exists|i: int| 0 <= i < ps.len() && spec_forbid_applies(#[trigger] ps[i], req, ents)
}

/// The decision itself: allow exactly when at least one permit rule
/// applies and no forbid rule applies. Absence of a matching permit is
/// deny — the default-deny stance.
pub open spec fn spec_decision(ps: Seq<Policy>, req: Request, ents: Seq<SpecEntity>) -> Judgement {
    if spec_some_permit(ps, req, ents) && !spec_some_forbid(ps, req, ents) {
        Judgement::Allow
    } else {
        Judgement::Deny
    }
}

/// Whether a rule is in evaluation error for this request: its scope
/// matches but its condition cannot be evaluated against the facts.
pub open spec fn spec_in_error(p: Policy, req: Request, ents: Seq<SpecEntity>) -> bool {
    p matches Policy::Static(d) && spec_scope_matches(d, req, ents)
        && !spec_condition_evaluable(d.when, req, ents)
}

/// The diagnostic list: ids of the rules in evaluation error, in store
/// order.
pub open spec fn spec_errors(ps: Seq<Policy>, req: Request, ents: Seq<SpecEntity>) -> Seq<PolicyId>
    decreases ps.len(),
{
    if ps.len() == 0 {
        Seq::empty()
    } else if spec_in_error(ps.last(), req, ents) {
        spec_errors(ps.drop_last(), req, ents).push(crate::policy::spec_policy_id(ps.last()))
    } else {
        spec_errors(ps.drop_last(), req, ents)
    }
}

/// If the set has an applying permit once `p` is appended, either the
/// set already had one or `p` itself is it — and conversely.
pub proof fn lemma_some_permit_push(ps: Seq<Policy>, p: Policy, req: Request, ents: Seq<SpecEntity>)
    ensures
        spec_some_permit(ps.push(p), req, ents) <==> (spec_some_permit(ps, req, ents)
            || spec_permit_applies(p, req, ents)),
{
    let all = ps.push(p);
    if spec_some_permit(all, req, ents) {
        let x = choose|x: int| 0 <= x < all.len() && spec_permit_applies(all[x], req, ents);
        if x < ps.len() {
            assert(spec_permit_applies(ps[x], req, ents));
        } else {
            assert(all[x] == p);
        }
    }
    if spec_some_permit(ps, req, ents) {
        let x = choose|x: int| 0 <= x < ps.len() && spec_permit_applies(ps[x], req, ents);
        assert(spec_permit_applies(all[x], req, ents));
    }
    if spec_permit_applies(p, req, ents) {
        assert(spec_permit_applies(all[ps.len() as int], req, ents));
    }
}

/// The forbid counterpart of `lemma_some_permit_push`.
pub proof fn lemma_some_forbid_push(ps: Seq<Policy>, p: Policy, req: Request, ents: Seq<SpecEntity>)
    ensures
        spec_some_forbid(ps.push(p), req, ents) <==> (spec_some_forbid(ps, req, ents)
            || spec_forbid_applies(p, req, ents)),
{
    let all = ps.push(p);
    if spec_some_forbid(all, req, ents) {
        let x = choose|x: int| 0 <= x < all.len() && spec_forbid_applies(all[x], req, ents);
        if x < ps.len() {
            assert(spec_forbid_applies(ps[x], req, ents));
        } else {
            assert(all[x] == p);
        }
    }
    if spec_some_forbid(ps, req, ents) {
        let x = choose|x: int| 0 <= x < ps.len() && spec_forbid_applies(ps[x], req, ents);
        assert(spec_forbid_applies(all[x], req, ents));
    }
    if spec_forbid_applies(p, req, ents) {
        assert(spec_forbid_applies(all[ps.len() as int], req, ents));
    }
}

/// Appending a rule that does not apply to a request leaves the
/// decision on that request unchanged.
pub proof fn lemma_decision_push_inert(ps: Seq<Policy>, p: Policy, req: Request, ents: Seq<SpecEntity>)
    requires
        !spec_applies(p, req, ents),
    ensures
        spec_decision(ps.push(p), req, ents) == spec_decision(ps, req, ents),
{
    lemma_some_permit_push(ps, p, req, ents);
    lemma_some_forbid_push(ps, p, req, ents);
}

/// Whether the principal scope matches — executable form.
fn principal_matches(c: PrincipalConstraint, req: &Request, ents: &Entities) -> (r: bool)
    ensures
        r == spec_principal_matches(c, *req, ents@),
{
    match c {
        PrincipalConstraint::Any => true,
        PrincipalConstraint::Is(u) => {
            let p = crate::entity::principal_uid(req.principal);
            p == u
        },
        PrincipalConstraint::InGroup(t) => {
            let p = crate::entity::principal_uid(req.principal);
            if p == t {
                true
            } else {
                match ents.find(p) {
                    Some(i) => {
                        let e = ents.entity_at(i);
                        contains_uid(&e.parents, t)
                    },
                    None => false,
                }
            }
        },
        PrincipalConstraint::Slot => false,
    }
}

/// Whether a parent list contains the given identity.
fn contains_uid(v: &Vec<EntityUid>, u: EntityUid) -> (r: bool)
    ensures
        r == v@.contains(u),
{
    let n = v.len();
    for i in 0..n
        invariant
            n == v@.len(),
            forall|x: int| 0 <= x < i ==> v@[x] != u,
    {
        if v[i] == u {
            return true;
        }
    }
    false
}

/// Whether a member list contains the given user.
pub(crate) fn contains_user(v: &Vec<crate::domain::UserId>, u: crate::domain::UserId) -> (r: bool)
    ensures
        r == v@.contains(u),
{
    let n = v.len();
    for i in 0..n
        invariant
            n == v@.len(),
            forall|x: int| 0 <= x < i ==> v@[x] != u,
    {
        if v[i] == u {
            return true;
        }
    }
    false
}

/// The three-valued outcome of one rule against one request.
enum RuleOutcome {
    Applies,
    DoesNotApply,
    EvaluationError,
}

/// Evaluates one ground rule's scope and condition.
fn rule_outcome(d: &PolicyDef, req: &Request, ents: &Entities) -> (r: RuleOutcome)
    ensures
        spec_scope_matches(*d, *req, ents@) && !spec_condition_evaluable(d.when, *req, ents@)
            <==> r is EvaluationError,
        spec_applies(Policy::Static(*d), *req, ents@) <==> r is Applies,
{
    let scope = principal_matches(d.principal, req, ents) && match d.action {
        ActionConstraint::Any => true,
        ActionConstraint::Is(a) => req.action == a,
    } && match d.resource {
        ResourceConstraint::Any => true,
        ResourceConstraint::Is(u) => req.resource == u,
    };
    if !scope {
        return RuleOutcome::DoesNotApply;
    }
    match d.when {
        Condition::Always => RuleOutcome::Applies,
        Condition::PrincipalIsResource => {
            let p = crate::entity::principal_uid(req.principal);
            if p == req.resource {
                RuleOutcome::Applies
            } else {
                RuleOutcome::DoesNotApply
            }
        },
        Condition::PrincipalInResourceMembers => {
            match ents.find(req.resource) {
                None => RuleOutcome::EvaluationError,
                Some(i) => {
                    let e = ents.entity_at(i);
                    match req.principal {
                        Principal::User(u) => {
                            if contains_user(&e.members, u) {
                                RuleOutcome::Applies
                            } else {
                                RuleOutcome::DoesNotApply
                            }
                        },
                        Principal::Anonymous => RuleOutcome::DoesNotApply,
                    }
                },
            }
        },
    }
}

/// Evaluates a request against a policy set and a fact set.
///
/// The decision is exactly `spec_decision`; the diagnostics list the
/// rules whose conditions could not be evaluated, in store order.
pub fn evaluate(req: &Request, policies: &PolicySet, facts: &Entities) -> (r: Response)
    ensures
        r.decision == spec_decision(policies@, *req, facts@),
        r.errors@ == spec_errors(policies@, *req, facts@),
{
    let mut some_permit = false;
    let mut some_forbid = false;
    let mut errors: Vec<PolicyId> = Vec::new();
    let list = policies.policies();
    let n = list.len();
    for i in 0..n
        invariant
            n == list@.len(),
            list@ == policies@,
            some_permit == spec_some_permit(policies@.take(i as int), *req, facts@),
            some_forbid == spec_some_forbid(policies@.take(i as int), *req, facts@),
            errors@ == spec_errors(policies@.take(i as int), *req, facts@),
    {
        match list[i] {
            Policy::Static(d) => {
                match rule_outcome(&d, req, facts) {
                    RuleOutcome::Applies => {
                        match d.effect {
                            Effect::Permit => {
                                some_permit = true;
                            },
                            Effect::Forbid => {
                                some_forbid = true;
                            },
                        }
                    },
                    RuleOutcome::DoesNotApply => {},
                    RuleOutcome::EvaluationError => {
                        errors.push(d.id);
                    },
                }
            },
            Policy::Template { .. } => {},
        }
        proof {
            let prev = policies@.take(i as int);
            let cur = policies@.take(i + 1);
            assert(cur =~= prev.push(policies@[i as int]));
            lemma_some_permit_push(prev, policies@[i as int], *req, facts@);
            lemma_some_forbid_push(prev, policies@[i as int], *req, facts@);
            assert(cur.drop_last() =~= prev);
            assert(cur.last() == policies@[i as int]);
        }
    }
    proof {
        assert(policies@.take(n as int) =~= policies@);
    }
    let decision = if some_permit && !some_forbid {
        Judgement::Allow
    } else {
        Judgement::Deny
    };
    Response { decision, errors }
}

} // verus!
