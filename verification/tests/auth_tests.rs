use webauth::api::auth::{authenticate, login_decision, session_user};
use webauth::db::{database_url_or_default, registration_error};
use webauth::errors::ServiceError;
use webauth::models::user::{SlimUser, User, UserPrivilege};
use webauth::utils::password::hash_password_with_salt;

const SECRET: &str = "0123012301230123012301230123012301230123012301230123012301230123";

fn user(hashed_pwd: &str) -> User {
    User {
        id: 42,
        email: "a@b.c".to_string(),
        name: Some("Ann".to_string()),
        hashed_pwd: hashed_pwd.to_string(),
        privilege: UserPrivilege::User,
        created_at: None,
        updated_at: None,
    }
}

fn ann() -> SlimUser {
    SlimUser { id: 42, email: "a@b.c".to_string(), name: Some("Ann".to_string()) }
}

#[test]
fn slim_user_keeps_public_fields() {
    let slim = SlimUser::from(user("h"));
    assert_eq!(slim, ann());
}

#[test]
fn login_with_right_password() {
    let h = hash_password_with_salt("pw", &[3u8; 16], SECRET).unwrap();
    assert_eq!(authenticate(Some(user(&h)), "pw", SECRET), Ok(ann()));
}

#[test]
fn login_with_wrong_password() {
    let h = hash_password_with_salt("pw", &[3u8; 16], SECRET).unwrap();
    assert_eq!(authenticate(Some(user(&h)), "pw2", SECRET), Err(ServiceError::Unauthorized));
}

#[test]
fn login_of_unknown_user() {
    assert_eq!(authenticate(None, "pw", SECRET), Err(ServiceError::Unauthorized));
}

#[test]
fn login_with_broken_stored_hash() {
    assert_eq!(authenticate(Some(user("$$")), "pw", SECRET), Err(ServiceError::Unauthorized));
}

#[test]
fn login_decision_cases() {
    assert_eq!(login_decision(user("h"), Ok(true)), Ok(ann()));
    assert_eq!(login_decision(user("h"), Ok(false)), Err(ServiceError::Unauthorized));
    assert_eq!(
        login_decision(user("h"), Err(ServiceError::InternalServerError)),
        Err(ServiceError::InternalServerError)
    );
}

#[test]
fn session_user_cases() {
    assert_eq!(session_user(Some(ann())), Ok(ann()));
    assert_eq!(session_user(None), Err(ServiceError::Unauthorized));
}

#[test]
fn duplicate_email_is_a_bad_request() {
    assert_eq!(
        registration_error("error returned from database: UNIQUE constraint failed: users.email"),
        ServiceError::BadRequest("Email already exists".to_string())
    );
}

#[test]
fn other_database_errors_are_internal() {
    assert_eq!(registration_error("database is locked"), ServiceError::InternalServerError);
    assert_eq!(registration_error("unique constraint failed"), ServiceError::InternalServerError);
}

#[test]
fn database_url_defaults_to_local_sqlite() {
    assert_eq!(database_url_or_default(None), "sqlite:db.db?mode=rwc");
    assert_eq!(database_url_or_default(Some("sqlite::memory:".to_string())), "sqlite::memory:");
}
