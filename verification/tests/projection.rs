use user_dtos::errors::ProjectionError;
use user_dtos::models::{Timestamp, User, UserRole};
use user_dtos::projector::FilterUserDto;
use user_dtos::response::{
    Response, UserListResponseDto, UserLoginResponseDto, UserResponseDto,
};

fn t(secs: i64) -> Timestamp {
    Timestamp { secs, nanos: 0 }
}

fn ann() -> User {
    User {
        id: "u1".to_string(),
        name: "Ann".to_string(),
        email: "ann@example.com".to_string(),
        role: UserRole::Admin,
        verified: true,
        password: "hunter2hunter2".to_string(),
        created_at: Some(t(1_000)),
        updated_at: Some(t(2_000)),
    }
}

#[test]
fn projection_maps_every_field_and_drops_the_secret() {
    let f = FilterUserDto::filter_user(&ann()).unwrap();
    assert_eq!(f.id, "u1");
    assert_eq!(f.name, "Ann");
    assert_eq!(f.email, "ann@example.com");
    assert_eq!(f.role, "admin");
    assert!(f.verified);
    assert_eq!(f.created_at, t(1_000));
    assert_eq!(f.updated_at, t(2_000));
}

#[test]
fn role_strings_are_canonical() {
    assert_eq!(UserRole::Admin.to_str(), "admin");
    assert_eq!(UserRole::Moderator.to_str(), "moderator");
    assert_eq!(UserRole::User.to_str(), "user");
}

#[test]
fn projection_keeps_order_and_length() {
    let mut bob = ann();
    bob.id = "u2".to_string();
    bob.name = "Bob".to_string();
    bob.role = UserRole::User;
    let users = vec![ann(), bob];
    let fs = FilterUserDto::filter_users(&users).unwrap();
    assert_eq!(fs.len(), 2);
    assert_eq!(fs[0].id, "u1");
    assert_eq!(fs[1].id, "u2");
    assert_eq!(fs[1].role, "user");
}

#[test]
fn missing_update_timestamp_is_an_integrity_error() {
    let mut u = ann();
    u.updated_at = None;
    assert_eq!(
        FilterUserDto::filter_user(&u).unwrap_err(),
        ProjectionError::MissingAuditTimestamp
    );
}

#[test]
fn missing_creation_timestamp_is_an_integrity_error() {
    let mut u = ann();
    u.created_at = None;
    assert_eq!(
        FilterUserDto::filter_user(&u).unwrap_err(),
        ProjectionError::MissingAuditTimestamp
    );
}

#[test]
fn one_bad_record_fails_the_whole_list() {
    let mut bad = ann();
    bad.updated_at = None;
    let users = vec![ann(), bad];
    assert_eq!(
        FilterUserDto::filter_users(&users).unwrap_err(),
        ProjectionError::MissingAuditTimestamp
    );
}

#[test]
fn reprojection_yields_an_identical_view() {
    let u = ann();
    let f1 = FilterUserDto::filter_user(&u).unwrap();
    let f2 = FilterUserDto::filter_user(&u).unwrap();
    assert_eq!(f1, f2);
}

#[test]
fn envelopes_carry_what_they_are_given() {
    let f = FilterUserDto::filter_user(&ann()).unwrap();

    let single = UserResponseDto::new("success".to_string(), f.clone());
    assert_eq!(single.status, "success");
    assert_eq!(single.data.user, f);

    let list = UserListResponseDto::new("success".to_string(), vec![f.clone(), f.clone()]);
    assert_eq!(list.status, "success");
    assert_eq!(list.results, 2);
    assert_eq!(list.users.len(), 2);

    let login = UserLoginResponseDto::new("success".to_string(), "tok".to_string());
    assert_eq!(login.status, "success");
    assert_eq!(login.token, "tok");

    let msg = Response::new("error", "something went wrong".to_string());
    assert_eq!(msg.status, "error");
    assert_eq!(msg.message, "something went wrong");
}
