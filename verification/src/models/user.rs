use vstd::prelude::*;

verus! {

/// The privilege level of an account.
#[derive(Debug, Clone, Copy, PartialEq, Eq, Structural)]
pub enum UserPrivilege {
    User,
    Vip,
    Mod,
    Admin,
}

#[verifier::external_type_specification]
#[verifier::external_body]
pub struct ExNaiveDateTime(chrono::NaiveDateTime);

/// An account as it is stored.
#[derive(Debug)]
pub struct User {
    pub id: u64,
    pub email: String,
    pub name: Option<String>,
    pub hashed_pwd: String,
    pub privilege: UserPrivilege,
    pub created_at: Option<chrono::NaiveDateTime>,
    pub updated_at: Option<chrono::NaiveDateTime>,
}

/// The part of an account that is shown to clients and kept in the session.
#[derive(Debug, Clone, PartialEq, Eq)]
pub struct SlimUser {
    pub id: u64,
    pub email: String,
    pub name: Option<String>,
}

/// What a client sends to open an account.
#[derive(Debug, Clone, PartialEq, Eq)]
pub struct CreateUser {
    pub email: String,
    pub password: String,
    pub name: Option<String>,
}

/// What a client sends to log in.
#[derive(Debug, Clone, PartialEq, Eq)]
pub struct LoginUser {
    pub email: String,
    pub password: String,
}

impl From<User> for SlimUser {
    fn from(user: User) -> (slim: SlimUser)
        ensures
            slim.id == user.id,
            slim.email == user.email,
            slim.name == user.name,
    {
        SlimUser { id: user.id, email: user.email, name: user.name }
    }
}

impl vstd::std_specs::convert::FromSpecImpl<User> for SlimUser {
    open spec fn obeys_from_spec() -> bool {
        true
    }

    open spec fn from_spec(user: User) -> SlimUser {
        SlimUser { id: user.id, email: user.email, name: user.name }
    }
}

/// The public view of an account keeps its id, e-mail address and name as
/// they are, a missing name included.
pub proof fn law_slim_user_keeps_public_fields(user: User)
    ensures
        <SlimUser as vstd::std_specs::convert::FromSpec<User>>::from_spec(user).id == user.id,
        <SlimUser as vstd::std_specs::convert::FromSpec<User>>::from_spec(user).email == user.email,
        <SlimUser as vstd::std_specs::convert::FromSpec<User>>::from_spec(user).name == user.name,
{
}

} // verus!
