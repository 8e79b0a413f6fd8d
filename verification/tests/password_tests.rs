use webauth::errors::ServiceError;
use webauth::utils::password::{
    hash_password, hash_password_with_salt, password_hash_params, verify, HashParams,
    HashVariant, HashVersion,
};

const SECRET: &str = "0123012301230123012301230123012301230123012301230123012301230123";

#[test]
fn service_hash_params() {
    assert_eq!(
        password_hash_params(),
        HashParams {
            variant: HashVariant::Argon2id,
            version: HashVersion::Version13,
            mem_cost: 19456,
            time_cost: 2,
            lanes: 4,
            hash_length: 32,
        }
    );
}

#[test]
fn hashed_password_verifies() {
    let h = hash_password("hunter2", SECRET).unwrap();
    assert!(h.starts_with("$argon2id$v=19$m=19456,t=2,p=4$"));
    assert_eq!(verify(&h, "hunter2", SECRET), Ok(true));
    assert_eq!(verify(&h, "hunter3", SECRET), Ok(false));
    assert_eq!(verify(&h, "hunter2", "another secret"), Ok(false));
}

#[test]
fn salted_hash_is_deterministic() {
    let salt = [7u8; 16];
    let a = hash_password_with_salt("pw", &salt, SECRET).unwrap();
    let b = hash_password_with_salt("pw", &salt, SECRET).unwrap();
    assert_eq!(a, b);
    assert!(a.starts_with("$argon2id$v=19$m=19456,t=2,p=4$BwcHBwcHBwcHBwcHBwcHBw$"));
    assert_eq!(verify(&a, "pw", SECRET), Ok(true));
}

#[test]
fn fresh_salts_differ() {
    let a = hash_password("pw", SECRET).unwrap();
    let b = hash_password("pw", SECRET).unwrap();
    assert_ne!(a, b);
}

#[test]
fn short_salt_is_an_internal_error() {
    let salt = [1u8; 7];
    assert_eq!(hash_password_with_salt("pw", &salt, SECRET), Err(ServiceError::InternalServerError));
}

#[test]
fn unreadable_hash_is_unauthorized() {
    assert_eq!(verify("not a hash", "pw", SECRET), Err(ServiceError::Unauthorized));
    assert_eq!(verify("", "pw", SECRET), Err(ServiceError::Unauthorized));
}

#[test]
fn hash_layout_is_settings_salt_and_tag() {
    let h = hash_password_with_salt("pw", &[7u8; 16], SECRET).unwrap();
    let parts: Vec<&str> = h.split('$').collect();
    assert_eq!(parts.len(), 6);
    assert_eq!(parts[1], "argon2id");
    assert_eq!(parts[2], "v=19");
    assert_eq!(parts[3], "m=19456,t=2,p=4");
    assert_eq!(parts[4], "BwcHBwcHBwcHBwcHBwcHBw");
    assert_eq!(parts[5].len(), 43);
    assert!(parts[5].chars().all(|c| c.is_ascii_alphanumeric() || c == '+' || c == '/'));
}
