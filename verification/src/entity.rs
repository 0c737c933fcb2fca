//! The fact model: typed entities with identities, group-membership
//! relationships, and member lists, supplied to the decision engine as
//! ground truth for one evaluation.
//!
//! An entity's identity doubles as its `id` attribute; its canonical
//! text form — the hyphenated hex rendering of the 128-bit value, or
//! "anonymous" — is the business of the `uid_text` module.

use vstd::prelude::*;

use crate::domain::{GroupId, UserId};
use crate::error::Error;
use crate::rbac::Principal;

verus! {

/// The identity of a fact entity.
///
/// Users and groups carry their opaque identifier; the four singleton
/// entities stand in for operations that have no concrete resource yet,
/// so that rules can still pattern-match on the resource.
#[derive(Debug, Clone, Copy, PartialEq, Eq, Hash, Structural)]
pub enum EntityUid {
    /// A user entity: the anonymous one, or a concrete user.
    User(Principal),
    Group(GroupId),
    CreateUser,
    ListUsers,
    CreateGroup,
    ListGroups,
}

/// One fact entity: an identity, the groups it belongs to, and — for
/// group-kind entities — its member list.
#[derive(Debug, Clone, PartialEq, Eq)]
pub struct Entity {
    pub uid: EntityUid,
    /// Group-membership relationships of this entity.
    pub parents: Vec<EntityUid>,
    /// The `members` attribute of a group-kind entity; empty elsewhere.
    pub members: Vec<UserId>,
}

/// The mathematical value of one fact entity.
#[verifier::ext_equal]
pub struct SpecEntity {
    pub uid: EntityUid,
    pub parents: Seq<EntityUid>,
    pub members: Seq<UserId>,
}

impl View for Entity {
    type V = SpecEntity;

    open spec fn view(&self) -> SpecEntity {
        SpecEntity { uid: self.uid, parents: self.parents@, members: self.members@ }
    }
}

/// The mathematical value of a list of fact entities.
pub open spec fn spec_entity_views(es: Seq<Entity>) -> Seq<SpecEntity> {
    es.map_values(|e: Entity| e@)
}

/// The fact set of one evaluation: finitely many entities with pairwise
/// distinct identities.
#[derive(Debug, Clone)]
pub struct Entities {
    entities: Vec<Entity>,
}

/// The entity identity a principal evaluates as.
pub open spec fn spec_principal_uid(p: Principal) -> EntityUid {
    EntityUid::User(p)
}

/// Pairwise-distinct identities: what makes a list of entities a valid
/// fact set.
pub open spec fn distinct_uids(es: Seq<SpecEntity>) -> bool {
    forall|i: int, j: int|
        0 <= i < j < es.len() ==> #[trigger] es[i].uid != #[trigger] es[j].uid
}

impl View for Entities {
    type V = Seq<SpecEntity>;

    closed spec fn view(&self) -> Seq<SpecEntity> {
        spec_entity_views(self.entities@)
    }
}

impl Entities {
    /// A fact set with no entities.
    pub fn empty() -> (r: Entities)
        ensures
            r@ == Seq::<SpecEntity>::empty(),
    {
        let r = Entities { entities: Vec::new() };
        proof {
            assert(r@ =~= Seq::<SpecEntity>::empty());
        }
        r
    }

    /// Builds a fact set, rejecting entity lists in which two entities
    /// share an identity: such a list has no well-defined meaning as
    /// ground truth.
    pub fn from_entities(list: Vec<Entity>) -> (r: Result<Entities, Error>)
        ensures
            distinct_uids(spec_entity_views(list@)) ==> (r matches Ok(es) && es@
                == spec_entity_views(list@)),
            !distinct_uids(spec_entity_views(list@)) ==> (r matches Err(e) && e
                == Error::Encoding),
    {
        let ghost views = spec_entity_views(list@);
        proof {
            assert(views.len() == list@.len());
            assert(forall|x: int| 0 <= x < list@.len() ==> #[trigger] views[x] == list@[x]@);
        }
        let n = list.len();
        for i in 0..n
            invariant
                n == list@.len(),
                views == spec_entity_views(list@),
                views.len() == list@.len(),
                forall|x: int| 0 <= x < list@.len() ==> #[trigger] views[x] == list@[x]@,
                forall|x: int, y: int|
                    0 <= x < y < views.len() && x < i ==> #[trigger] views[x].uid
                        != #[trigger] views[y].uid,
        {
            for j in (i + 1)..n
                invariant
                    i < n == list@.len(),
                    views == spec_entity_views(list@),
                    views.len() == list@.len(),
                    forall|x: int| 0 <= x < list@.len() ==> #[trigger] views[x] == list@[x]@,
                    forall|x: int, y: int|
                        0 <= x < y < views.len() && x < i ==> #[trigger] views[x].uid
                            != #[trigger] views[y].uid,
                    forall|y: int|
                        i < y < j ==> #[trigger] views[y].uid != views[i as int].uid,
            {
                if list[i].uid == list[j].uid {
                    proof {
                        assert(views[i as int].uid == views[j as int].uid);
                        assert(!distinct_uids(views));
                    }
                    return Err(Error::Encoding);
                }
            }
        }
        Ok(Entities { entities: list })
    }

    /// The number of entities in this fact set.
    pub fn len(&self) -> (n: usize)
        ensures
            n == self@.len(),
    {
        self.entities.len()
    }

    /// The entity at the given position.
    pub fn entity_at(&self, i: usize) -> (e: &Entity)
        requires
            i < self@.len(),
        ensures
            e@ == self@[i as int],
    {
        &self.entities[i]
    }

    /// The index of the first entity with the given identity, if any.
    pub fn find(&self, uid: EntityUid) -> (r: Option<usize>)
        ensures
            match r {
                Some(i) => i < self@.len() && self@[i as int].uid == uid && (spec_lookup(
                    self@,
                    uid,
                ) matches Some(e) && e == self@[i as int]),
                None => spec_lookup(self@, uid) is None,
            },
    {
        let n = self.entities.len();
        proof {
            assert(self@.skip(0) =~= self@);
        }
        for i in 0..n
            invariant
                n == self@.len(),
                n == self.entities@.len(),
                forall|x: int| 0 <= x < i ==> #[trigger] self@[x].uid != uid,
                spec_lookup(self@, uid) == spec_lookup(self@.skip(i as int), uid),
        {
            proof {
                assert(self@[i as int] == self.entities@[i as int]@);
            }
            if self.entities[i].uid == uid {
                proof {
                    assert(self@.skip(i as int)[0] == self@[i as int]);
                }
                return Some(i);
            }
            proof {
                assert(self@.skip(i as int)[0] == self@[i as int]);
                assert(self@.skip(i as int).skip(1) =~= self@.skip(i + 1));
            }
        }
        proof {
            assert(self@.skip(n as int).len() == 0);
        }
        None
    }

    /// The member list recorded for the entity with the given identity:
    /// `None` when no such entity is among the facts.
    pub fn members_of(&self, uid: EntityUid) -> (r: Option<&Vec<UserId>>)
        ensures
            match r {
                Some(m) => spec_lookup(self@, uid) matches Some(e) && m@ == e.members,
                None => spec_lookup(self@, uid) is None,
            },
    {
        match self.find(uid) {
            Some(i) => Some(&self.entities[i].members),
            None => None,
        }
    }
}

/// The first entity with the given identity, scanning in order.
pub open spec fn spec_lookup(es: Seq<SpecEntity>, uid: EntityUid) -> Option<SpecEntity>
    decreases es.len(),
{
    if es.len() == 0 {
        None
    } else if es[0].uid == uid {
        Some(es[0])
    } else {
        spec_lookup(es.skip(1), uid)
    }
}

/// Whether the facts record the entity `uid` as belonging to `target`.
pub open spec fn spec_in_parents(es: Seq<SpecEntity>, uid: EntityUid, target: EntityUid) -> bool {
    match spec_lookup(es, uid) {
        Some(e) => e.parents.contains(target),
        None => false,
    }
}

/// The expected shape of a principal entity: membership relationships
/// only for an identified user, never for the anonymous principal.
pub open spec fn spec_principal_entity(p: Principal, groups: Seq<GroupId>) -> SpecEntity {
    SpecEntity {
        uid: spec_principal_uid(p),
        parents: if p is Anonymous {
            Seq::empty()
        } else {
            groups.map_values(|g: GroupId| EntityUid::Group(g))
        },
        members: Seq::empty(),
    }
}

/// The expected shape of a concrete user's entity.
pub open spec fn spec_user_entity(user_id: UserId, groups: Seq<GroupId>) -> SpecEntity {
    SpecEntity {
        uid: EntityUid::User(Principal::User(user_id)),
        parents: groups.map_values(|g: GroupId| EntityUid::Group(g)),
        members: Seq::empty(),
    }
}

/// The expected shape of a group's entity: its identity and its member
/// list, as currently recorded.
pub open spec fn spec_group_entity(id: GroupId, members: Seq<UserId>) -> SpecEntity {
    SpecEntity { uid: EntityUid::Group(id), parents: Seq::empty(), members: members }
}

/// The expected shape of the create-group placeholder entity carrying
/// the proposed (unverified) member list.
pub open spec fn spec_create_group_entity(members: Seq<UserId>) -> SpecEntity {
    SpecEntity { uid: EntityUid::CreateGroup, parents: Seq::empty(), members: members }
}

/// The entity identity of a concrete user resource.
pub fn encode_user_id(id: UserId) -> (u: EntityUid)
    ensures
        u == EntityUid::User(Principal::User(id)),
{
    EntityUid::User(Principal::User(id))
}

/// The entity identity of a concrete group resource.
pub fn encode_group_id(id: GroupId) -> (u: EntityUid)
    ensures
        u == EntityUid::Group(id),
{
    EntityUid::Group(id)
}

/// The entity identity a principal evaluates as.
pub fn principal_uid(p: Principal) -> (u: EntityUid)
    ensures
        u == spec_principal_uid(p),
{
    EntityUid::User(p)
}

/// The `members` attribute of a group entity, as the engine expects it.
pub fn encode_group_members(members: &Vec<UserId>) -> (r: Vec<UserId>)
    ensures
        r@ == members@,
{
    let mut out: Vec<UserId> = Vec::new();
    let n = members.len();
    for i in 0..n
        invariant
            n == members@.len(),
            out@ == members@.take(i as int),
    {
        out.push(members[i]);
        proof {
            assert(members@.take(i + 1) =~= members@.take(i as int).push(members@[i as int]));
        }
    }
    proof {
        assert(members@.take(n as int) =~= members@);
    }
    out
}

/// The group-membership relationships of a principal or user entity.
fn encode_parent_groups(groups: &Vec<GroupId>) -> (r: Vec<EntityUid>)
    ensures
        r@ == groups@.map_values(|g: GroupId| EntityUid::Group(g)),
{
    let mut out: Vec<EntityUid> = Vec::new();
    let n = groups.len();
    for i in 0..n
        invariant
            n == groups@.len(),
            out@ == groups@.take(i as int).map_values(|g: GroupId| EntityUid::Group(g)),
    {
        out.push(EntityUid::Group(groups[i]));
        proof {
            assert(groups@.take(i + 1) =~= groups@.take(i as int).push(groups@[i as int]));
            assert(groups@.take(i + 1).map_values(|g: GroupId| EntityUid::Group(g)) =~= groups@.take(
                i as int,
            ).map_values(|g: GroupId| EntityUid::Group(g)).push(EntityUid::Group(groups@[i as int])));
        }
    }
    proof {
        assert(groups@.take(n as int) =~= groups@);
    }
    out
}

/// Encodes the principal as a user-kind entity. Membership
/// relationships are attached only for the groups relevant to this
/// decision, and never for the anonymous principal.
pub fn encode_principal_entity(p: Principal, groups: &Vec<GroupId>) -> (e: Entity)
    ensures
        e@ == spec_principal_entity(p, groups@),
{
    let parents = match p {
        Principal::Anonymous => Vec::new(),
        Principal::User(_) => encode_parent_groups(groups),
    };
    let e = Entity { uid: principal_uid(p), parents, members: Vec::new() };
    proof {
        assert(e@ =~~= spec_principal_entity(p, groups@));
    }
    e
}

/// Encodes a concrete user resource as a user-kind entity.
pub fn encode_user_entity(user_id: UserId, groups: &Vec<GroupId>) -> (e: Entity)
    ensures
        e@ == spec_user_entity(user_id, groups@),
{
    let e = Entity {
        uid: encode_user_id(user_id),
        parents: encode_parent_groups(groups),
        members: Vec::new(),
    };
    proof {
        assert(e@ =~~= spec_user_entity(user_id, groups@));
    }
    e
}

/// Encodes a group with its current member list as a group-kind entity.
pub fn encode_group_entity(id: GroupId, members: &Vec<UserId>) -> (e: Entity)
    ensures
        e@ == spec_group_entity(id, members@),
{
    let e = Entity {
        uid: encode_group_id(id),
        parents: Vec::new(),
        members: encode_group_members(members),
    };
    proof {
        assert(e@ =~~= spec_group_entity(id, members@));
    }
    e
}

/// Encodes the create-group placeholder entity carrying the proposed
/// (unverified) member list.
pub fn encode_create_group_entity(members: &Vec<UserId>) -> (e: Entity)
    ensures
        e@ == spec_create_group_entity(members@),
{
    let e = Entity {
        uid: EntityUid::CreateGroup,
        parents: Vec::new(),
        members: encode_group_members(members),
    };
    proof {
        assert(e@ =~~= spec_create_group_entity(members@));
    }
    e
}

} // verus!
