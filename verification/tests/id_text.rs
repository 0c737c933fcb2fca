//! Canonical identifier text: rendering, parsing, and their agreement
//! with the ubiquitous hyphenated form.

use authz::domain::{GroupId, UserId};
use authz::error::Error;
use authz::rbac::Principal;
use authz::uid_text::{
    group_id_text, parse_group_id, parse_user_id, parse_uuid_text, principal_text, user_id_text,
    uuid_text,
};

#[test]
fn renders_the_zero_identifier() {
    let text = uuid_text(0);
    assert_eq!(text, b"00000000-0000-0000-0000-000000000000".to_vec());
}

#[test]
fn renders_a_mixed_identifier() {
    let v = 0x0123_4567_89ab_cdef_0123_4567_89ab_cdef_u128;
    let text = uuid_text(v);
    assert_eq!(text, b"01234567-89ab-cdef-0123-456789abcdef".to_vec());
}

#[test]
fn parses_the_canonical_form() {
    let v = parse_uuid_text(b"01234567-89ab-cdef-0123-456789abcdef").unwrap();
    assert_eq!(v, 0x0123_4567_89ab_cdef_0123_4567_89ab_cdef_u128);
}

#[test]
fn round_trips_values_through_text() {
    for v in [0u128, 1, 0xdead_beef, u128::MAX, 0x0102_0304_0506_0708_090a_0b0c_0d0e_0f10] {
        assert_eq!(parse_uuid_text(&uuid_text(v)), Ok(v));
    }
}

#[test]
fn agrees_with_the_usual_hyphenated_rendering() {
    for v in [0u128, 7, 0xfeed_f00d, u128::MAX, 0x0123_4567_89ab_cdef_0123_4567_89ab_cdef] {
        let ours = String::from_utf8(uuid_text(v)).unwrap();
        let theirs = uuid::Uuid::from_u128(v).to_string();
        assert_eq!(ours, theirs);
    }
}

#[test]
fn rejects_malformed_text() {
    // wrong length
    assert_eq!(parse_uuid_text(b"0123"), Err(Error::Encoding));
    // separator out of place
    assert_eq!(
        parse_uuid_text(b"0123456789-ab-cdef-0123-456789abcdef"),
        Err(Error::Encoding)
    );
    // a byte outside the lowercase hex alphabet
    assert_eq!(
        parse_uuid_text(b"01234567-89AB-cdef-0123-456789abcdef"),
        Err(Error::Encoding)
    );
    assert_eq!(
        parse_uuid_text(b"0123456g-89ab-cdef-0123-456789abcdef"),
        Err(Error::Encoding)
    );
}

#[test]
fn typed_identifiers_round_trip() {
    let u = UserId::new(99);
    assert_eq!(parse_user_id(&user_id_text(u)), Ok(u));
    let g = GroupId::new(1234);
    assert_eq!(parse_group_id(&group_id_text(g)), Ok(g));
}

#[test]
fn principal_text_forms() {
    assert_eq!(principal_text(Principal::Anonymous), b"anonymous".to_vec());
    let u = UserId::new(5);
    assert_eq!(principal_text(Principal::User(u)), user_id_text(u));
}
