//! The policy model: compiled rule sets of ground rules and rule
//! templates, and the pure binding step that turns a template into a
//! ground rule scoped to one concrete resource.

use vstd::prelude::*;

use crate::domain::GroupId;
use crate::entity::EntityUid;
use crate::error::Error;

verus! {

/// One action identifier per supported operation.
#[derive(Debug, Clone, Copy, PartialEq, Eq, Hash, Structural)]
pub enum Action {
    GetUser,
    ListUsers,
    CreateUser,
    UpdateUser,
    GetGroup,
    ListGroups,
    CreateGroup,
    UpdateGroup,
    UpdateGroupMembers,
}

/// Whether a rule grants or withdraws access when it matches.
#[derive(Debug, Clone, Copy, PartialEq, Eq, Hash, Structural)]
pub enum Effect {
    Permit,
    Forbid,
}

/// The principal scope of a rule. `InGroup` matches a principal whose
/// encoded entity records membership of the target. `Slot` is the open
/// parameter of a template: it matches nothing until bound.
#[derive(Debug, Clone, Copy, PartialEq, Eq, Hash, Structural)]
pub enum PrincipalConstraint {
    Any,
    Is(EntityUid),
    InGroup(EntityUid),
    Slot,
}

/// The action scope of a rule.
#[derive(Debug, Clone, Copy, PartialEq, Eq, Hash, Structural)]
pub enum ActionConstraint {
    Any,
    Is(Action),
}

/// The resource scope of a rule.
#[derive(Debug, Clone, Copy, PartialEq, Eq, Hash, Structural)]
pub enum ResourceConstraint {
    Any,
    Is(EntityUid),
}

/// The condition a rule checks once its scope matches.
///
/// `PrincipalInResourceMembers` consults the `members` attribute of the
/// resource entity among the facts; when that entity is absent the
/// condition cannot be evaluated and the rule reports an evaluation
/// error instead of matching.
#[derive(Debug, Clone, Copy, PartialEq, Eq, Hash, Structural)]
pub enum Condition {
    Always,
    PrincipalIsResource,
    PrincipalInResourceMembers,
}

/// The identity of a rule within a policy set. Bound copies of the
/// member-updates-own-group template take their id deterministically
/// from the group id they are scoped to, so repeated checks against the
/// same group re-derive the same stable name.
#[derive(Debug, Clone, Copy, PartialEq, Eq, Hash, Structural)]
pub enum PolicyId {
    Rule(u64),
    Linked(GroupId),
}

/// The stable identifying annotation by which a template is located in
/// its store.
#[derive(Debug, Clone, Copy, PartialEq, Eq, Hash, Structural)]
pub enum Annotation {
    MemberUpdatesOwnGroup,
}

/// The body shared by ground rules and templates.
#[derive(Debug, Clone, Copy, PartialEq, Eq, Hash, Structural)]
pub struct PolicyDef {
    pub id: PolicyId,
    pub effect: Effect,
    pub principal: PrincipalConstraint,
    pub action: ActionConstraint,
    pub resource: ResourceConstraint,
    pub when: Condition,
}

/// A rule of a policy set: either a ground rule that evaluation
/// consults directly, or a template whose open slot must be bound to a
/// concrete value first — an unbound template never matches a request.
#[derive(Debug, Clone, Copy, PartialEq, Eq, Hash, Structural)]
pub enum Policy {
    Static(PolicyDef),
    Template { annotation: Annotation, def: PolicyDef },
}

/// Binding: the pure function that fills a template's slot with a
/// concrete target and names the resulting ground rule. It never
/// mutates the template or the store it came from.
pub open spec fn spec_bind(def: PolicyDef, target: EntityUid, id: PolicyId) -> PolicyDef {
    PolicyDef {
        id: id,
        principal: if def.principal is Slot {
            PrincipalConstraint::InGroup(target)
        } else {
            def.principal
        },
        ..def
    }
}

/// The first template carrying the given annotation, scanning in order.
pub open spec fn spec_find_template(ps: Seq<Policy>, a: Annotation) -> Option<PolicyDef>
    decreases ps.len(),
{
    if ps.len() == 0 {
        None
    } else if ps[0] matches Policy::Template { annotation, def } && annotation == a {
        Some(ps[0]->Template_def)
    } else {
        spec_find_template(ps.skip(1), a)
    }
}

/// The id a rule carries, ground or template.
pub open spec fn spec_policy_id(p: Policy) -> PolicyId {
    match p {
        Policy::Static(d) => d.id,
        Policy::Template { annotation, def } => def.id,
    }
}

/// Whether some rule of the set already carries the given id.
pub open spec fn spec_has_policy_id(ps: Seq<Policy>, id: PolicyId) -> bool {
    exists|i: int| 0 <= i < ps.len() && spec_policy_id(#[trigger] ps[i]) == id
}

/// What linking a template produces: the same set extended with the
/// bound ground rule, or nothing when the annotation names no template
/// or the requested id is already taken.
pub open spec fn spec_link(
    ps: Seq<Policy>,
    a: Annotation,
    target: EntityUid,
    id: PolicyId,
) -> Option<Seq<Policy>> {
    match spec_find_template(ps, a) {
        None => None,
        Some(def) => if spec_has_policy_id(ps, id) {
            None
        } else {
            Some(ps.push(Policy::Static(spec_bind(def, target, id))))
        },
    }
}

/// A compiled policy set: ground rules plus templates, immutable after
/// startup load and shared read-only between checks.
#[derive(Debug, Clone)]
pub struct PolicySet {
    policies: Vec<Policy>,
}

impl View for PolicySet {
    type V = Seq<Policy>;

    closed spec fn view(&self) -> Seq<Policy> {
        self.policies@
    }
}

impl PolicySet {
    /// A policy set with no rules: everything evaluates to deny under it.
    pub fn empty() -> (s: PolicySet)
        ensures
            s@ == Seq::<Policy>::empty(),
    {
        PolicySet { policies: Vec::new() }
    }

    /// Compiles a rule list into a policy set.
    pub fn from_policies(list: Vec<Policy>) -> (s: PolicySet)
        ensures
            s@ == list@,
    {
        PolicySet { policies: list }
    }

    /// The rules of the set, in order.
    pub fn policies(&self) -> (r: &Vec<Policy>)
        ensures
            r@ == self@,
    {
        &self.policies
    }

    /// Locates the first template carrying the given annotation.
    pub fn find_template(&self, a: Annotation) -> (r: Option<PolicyDef>)
        ensures
            r == spec_find_template(self@, a),
    {
        let n = self.policies.len();
        proof {
            assert(self@.skip(0) =~= self@);
        }
        for i in 0..n
            invariant
                n == self@.len(),
                spec_find_template(self@, a) == spec_find_template(self@.skip(i as int), a),
        {
            proof {
                assert(self@.skip(i as int)[0] == self@[i as int]);
                assert(self@.skip(i as int).skip(1) =~= self@.skip(i + 1));
            }
            match self.policies[i] {
                Policy::Template { annotation, def } => {
                    if annotation == a {
                        return Some(def);
                    }
                },
                Policy::Static(_) => {},
            }
        }
        proof {
            assert(self@.skip(n as int).len() == 0);
        }
        None
    }

    /// Whether some rule of the set already carries the given id.
    pub fn has_policy_id(&self, id: PolicyId) -> (r: bool)
        ensures
            r == spec_has_policy_id(self@, id),
    {
        let n = self.policies.len();
        for i in 0..n
            invariant
                n == self@.len(),
                forall|x: int| 0 <= x < i ==> spec_policy_id(#[trigger] self@[x]) != id,
        {
            let pid = match self.policies[i] {
                Policy::Static(d) => d.id,
                Policy::Template { annotation, def } => def.id,
            };
            if pid == id {
                return true;
            }
        }
        false
    }

    /// Fills the slot of the template named by `a` with `target` and
    /// returns a new set extended with the bound rule under the id
    /// `id` — the shared base set is never mutated. Fails when the
    /// store holds no such template, or when the id is already taken.
    pub fn link(&self, a: Annotation, target: EntityUid, id: PolicyId) -> (r: Result<
        PolicySet,
        Error,
    >)
        ensures
            match spec_link(self@, a, target, id) {
                Some(ps) => r matches Ok(s) && s@ == ps,
                None => r matches Err(e) && e == Error::Configuration,
            },
    {
        let def = match self.find_template(a) {
            Some(def) => def,
            None => {
                return Err(Error::Configuration);
            },
        };
        if self.has_policy_id(id) {
            return Err(Error::Configuration);
        }
        let bound = PolicyDef {
            id: id,
            effect: def.effect,
            principal: match def.principal {
                PrincipalConstraint::Slot => PrincipalConstraint::InGroup(target),
                c => c,
            },
            action: def.action,
            resource: def.resource,
            when: def.when,
        };
        let mut out = self.policies.clone();
        out.push(Policy::Static(bound));
        Ok(PolicySet { policies: out })
    }
}

} // verus!
