use vstd::prelude::*;

use crate::errors::ServiceError;
use crate::models::user::{SlimUser, User};
use crate::utils::password::{argon2_verify_encoded, hashed_from, verify};

verus! {

/// What a session holds for the logged-in user.
pub open spec fn slim(user: User) -> SlimUser {
    SlimUser { id: user.id, email: user.email, name: user.name }
}

/// The outcome of a login once the stored account has been checked against the
/// password: a match logs the user in, a mismatch is unauthorized, and an error
/// of the check is passed on.
pub fn login_decision(user: User, password_matches: Result<bool, ServiceError>) -> (r: Result<
    SlimUser,
    ServiceError,
>)
    ensures
        match password_matches {
            Ok(true) => r == Ok::<SlimUser, ServiceError>(slim(user)),
            Ok(false) => r == Err::<SlimUser, ServiceError>(ServiceError::Unauthorized),
            Err(e) => r == Err::<SlimUser, ServiceError>(e),
        },
        r is Ok <==> password_matches == Ok::<bool, ServiceError>(true),
        r matches Ok(s) ==> s.id == user.id && s.email == user.email && s.name == user.name,
{
    match password_matches {
        Ok(true) => Ok(SlimUser::from(user)),
        Ok(false) => Err(ServiceError::Unauthorized),
        Err(e) => Err(e),
    }
}

/// Logs in with the account found for the e-mail address (if any) and the
/// given password, checked against the stored hash keyed with `secret`.
pub fn authenticate(user: Option<User>, password: &str, secret: &str) -> (r: Result<
    SlimUser,
    ServiceError,
>)
    ensures
        match user {
            None => r == Err::<SlimUser, ServiceError>(ServiceError::Unauthorized),
            Some(u) => match argon2_verify_encoded(
                u.hashed_pwd@,
                vstd::utf8::encode_utf8(password@),
                vstd::utf8::encode_utf8(secret@),
                Seq::empty(),
            ) {
                Some(true) => r == Ok::<SlimUser, ServiceError>(slim(u)),
                _ => r == Err::<SlimUser, ServiceError>(ServiceError::Unauthorized),
            },
        },
        user matches Some(u) && hashed_from(u.hashed_pwd@, password@, secret@)
            ==> r == Ok::<SlimUser, ServiceError>(slim(user->0)),
        r matches Ok(s) ==> (user matches Some(u) && s.id == u.id && s.email == u.email && s.name
            == u.name),
{
    match user {
        None => Err(ServiceError::Unauthorized),
        Some(u) => {
            let checked = verify(u.hashed_pwd.as_str(), password, secret);
            login_decision(u, checked)
        },
    }
}

/// The user of a request, from what its session's identity could be read as:
/// none (no identity, or one that does not read as a user) is unauthorized.
pub fn session_user(parsed: Option<SlimUser>) -> (r: Result<SlimUser, ServiceError>)
    ensures
        match parsed {
            Some(u) => r == Ok::<SlimUser, ServiceError>(u),
            None => r == Err::<SlimUser, ServiceError>(ServiceError::Unauthorized),
        },
{
    match parsed {
        Some(u) => Ok(u),
        None => Err(ServiceError::Unauthorized),
    }
}

/// The session user of an account keeps its id, e-mail address and name as
/// they are, a missing name included.
pub proof fn law_session_user_keeps_account_fields(user: User)
    ensures
        slim(user).id == user.id,
        slim(user).email == user.email,
        slim(user).name == user.name,
{
}

/// A login succeeds exactly when the password check says it matches, and then
/// gives the account's id, e-mail address and name unchanged.
pub proof fn law_login_decision(
    user: User,
    password_matches: Result<bool, ServiceError>,
    r: Result<SlimUser, ServiceError>,
)
    requires
        match password_matches {
            Ok(true) => r == Ok::<SlimUser, ServiceError>(slim(user)),
            Ok(false) => r == Err::<SlimUser, ServiceError>(ServiceError::Unauthorized),
            Err(e) => r == Err::<SlimUser, ServiceError>(e),
        },
    ensures
        r is Ok <==> password_matches == Ok::<bool, ServiceError>(true),
        r matches Ok(s) ==> s.id == user.id && s.email == user.email && s.name == user.name,
        password_matches == Ok::<bool, ServiceError>(false) ==> r == Err::<SlimUser, ServiceError>(
            ServiceError::Unauthorized,
        ),
{
}

} // verus!
