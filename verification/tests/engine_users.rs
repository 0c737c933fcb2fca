//! The user-resource facade under the shipped policy store.

use authz::domain::{CreateUserParams, UpdateUserParams, UserId};
use authz::engine::Engine;
use authz::rbac::{Judgement, Principal, UserAccessControl};

fn engine() -> Engine {
    Engine::new().unwrap()
}

#[test]
fn update_own_user_is_allowed() {
    let u1 = UserId::new(1);
    let params = UpdateUserParams { name: "self".to_string() };
    let r = engine().judge_update_user(Principal::User(u1), u1, &params);
    assert_eq!(r, Ok(Judgement::Allow));
}

#[test]
fn update_another_user_is_denied() {
    let u1 = UserId::new(1);
    let u2 = UserId::new(2);
    let params = UpdateUserParams { name: "other".to_string() };
    let r = engine().judge_update_user(Principal::User(u1), u2, &params);
    assert_eq!(r, Ok(Judgement::Deny));
}

#[test]
fn update_user_by_anonymous_is_denied() {
    let u1 = UserId::new(1);
    let params = UpdateUserParams { name: "anon".to_string() };
    let r = engine().judge_update_user(Principal::Anonymous, u1, &params);
    assert_eq!(r, Ok(Judgement::Deny));
}

#[test]
fn create_user_is_open_to_everyone() {
    let params = CreateUserParams { name: "newcomer".to_string() };
    let e = engine();
    assert_eq!(e.judge_create_user(Principal::Anonymous, &params), Ok(Judgement::Allow));
    assert_eq!(
        e.judge_create_user(Principal::User(UserId::new(3)), &params),
        Ok(Judgement::Allow)
    );
}

#[test]
fn user_reads_have_no_matching_rule() {
    // Default-deny: the shipped store holds no rule for these actions.
    let e = engine();
    let u1 = UserId::new(1);
    assert_eq!(e.judge_get_user(Principal::User(u1), u1), Ok(Judgement::Deny));
    assert_eq!(e.judge_get_user(Principal::Anonymous, u1), Ok(Judgement::Deny));
    assert_eq!(e.judge_list_users(Principal::User(u1)), Ok(Judgement::Deny));
    assert_eq!(e.judge_list_users(Principal::Anonymous), Ok(Judgement::Deny));
}

fn judge_update_via_trait<A: UserAccessControl>(
    control: &A,
    by: Principal,
    target: UserId,
) -> Judgement {
    let params = UpdateUserParams { name: "via trait".to_string() };
    control.judge_update_user(by, target, &params).unwrap()
}

#[test]
fn engine_serves_the_access_control_trait() {
    let u1 = UserId::new(1);
    let u2 = UserId::new(2);
    let e = engine();
    assert_eq!(judge_update_via_trait(&e, Principal::User(u1), u1), Judgement::Allow);
    assert_eq!(judge_update_via_trait(&e, Principal::User(u1), u2), Judgement::Deny);
}

#[test]
fn end_to_end_user_policy_scenario() {
    // The shipped store permits update-user when the principal is the
    // resource, and create-user unconditionally.
    let e = engine();
    let u1 = UserId::new(1);
    let u2 = UserId::new(2);
    let update = UpdateUserParams { name: "scenario".to_string() };
    let create = CreateUserParams { name: "scenario".to_string() };
    assert_eq!(e.judge_update_user(Principal::User(u1), u1, &update), Ok(Judgement::Allow));
    assert_eq!(e.judge_update_user(Principal::User(u1), u2, &update), Ok(Judgement::Deny));
    assert_eq!(e.judge_create_user(Principal::User(u1), &create), Ok(Judgement::Allow));
    assert_eq!(e.judge_create_user(Principal::Anonymous, &create), Ok(Judgement::Allow));
}

#[test]
fn decisions_reflect_call_time_arguments() {
    // No caching across checks: the same engine judges the same user
    // differently as the target changes.
    let e = engine();
    let u1 = UserId::new(1);
    let u2 = UserId::new(2);
    let params = UpdateUserParams { name: "again".to_string() };
    assert_eq!(e.judge_update_user(Principal::User(u1), u1, &params), Ok(Judgement::Allow));
    assert_eq!(e.judge_update_user(Principal::User(u1), u2, &params), Ok(Judgement::Deny));
    assert_eq!(e.judge_update_user(Principal::User(u1), u1, &params), Ok(Judgement::Allow));
}
