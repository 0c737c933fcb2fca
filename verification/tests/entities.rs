//! The fact encoder: entity shapes and lookups.

use authz::domain::{GroupId, UserId};
use authz::entity::{
    encode_create_group_entity, encode_group_entity, encode_group_id, encode_principal_entity,
    encode_user_entity, encode_user_id, principal_uid, Entities, EntityUid,
};
use authz::rbac::Principal;

#[test]
fn principal_identities() {
    let u = UserId::new(9);
    assert_eq!(principal_uid(Principal::Anonymous), EntityUid::User(Principal::Anonymous));
    assert_eq!(principal_uid(Principal::User(u)), EntityUid::User(Principal::User(u)));
    assert_eq!(encode_user_id(u), EntityUid::User(Principal::User(u)));
    assert_eq!(encode_group_id(GroupId::new(3)), EntityUid::Group(GroupId::new(3)));
}

#[test]
fn anonymous_principal_is_encoded_without_memberships() {
    // Even when groups are offered, the anonymous entity carries none.
    let groups = vec![GroupId::new(1), GroupId::new(2)];
    let e = encode_principal_entity(Principal::Anonymous, &groups);
    assert_eq!(e.uid, EntityUid::User(Principal::Anonymous));
    assert!(e.parents.is_empty());
    assert!(e.members.is_empty());
}

#[test]
fn identified_principal_carries_the_relevant_groups() {
    let u = UserId::new(9);
    let groups = vec![GroupId::new(1), GroupId::new(2)];
    let e = encode_principal_entity(Principal::User(u), &groups);
    assert_eq!(e.uid, EntityUid::User(Principal::User(u)));
    assert_eq!(
        e.parents,
        vec![EntityUid::Group(GroupId::new(1)), EntityUid::Group(GroupId::new(2))]
    );
}

#[test]
fn user_entity_shape() {
    let u = UserId::new(9);
    let e = encode_user_entity(u, &Vec::new());
    assert_eq!(e.uid, EntityUid::User(Principal::User(u)));
    assert!(e.parents.is_empty());
    assert!(e.members.is_empty());
}

#[test]
fn group_entity_carries_its_member_list() {
    let g = GroupId::new(4);
    let members = vec![UserId::new(1), UserId::new(2)];
    let e = encode_group_entity(g, &members);
    assert_eq!(e.uid, EntityUid::Group(g));
    assert!(e.parents.is_empty());
    assert_eq!(e.members, members);
}

#[test]
fn create_group_entity_carries_the_proposal() {
    let members = vec![UserId::new(1)];
    let e = encode_create_group_entity(&members);
    assert_eq!(e.uid, EntityUid::CreateGroup);
    assert_eq!(e.members, members);
}

#[test]
fn facts_find_entities_by_identity() {
    let g = GroupId::new(4);
    let members = vec![UserId::new(1)];
    let group_entity = encode_group_entity(g, &members);
    let principal_entity = encode_principal_entity(Principal::Anonymous, &Vec::new());
    let facts = Entities::from_entities(vec![principal_entity, group_entity]).unwrap();
    assert_eq!(facts.len(), 2);
    assert_eq!(facts.find(EntityUid::Group(g)), Some(1));
    assert_eq!(facts.find(EntityUid::ListGroups), None);
    assert_eq!(facts.members_of(EntityUid::Group(g)), Some(&members));
    assert_eq!(facts.members_of(EntityUid::CreateGroup), None);
}
