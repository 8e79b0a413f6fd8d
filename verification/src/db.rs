use vstd::prelude::*;

use crate::errors::ServiceError;
use crate::utils::text::{contains_seq, contains_str, occurs_at};

verus! {

/// How a failed insertion of a new account is reported: a broken uniqueness
/// constraint (the e-mail address is taken) is the client's fault, anything
/// else is the server's.
pub open spec fn registration_error_spec(db_message: Seq<char>, e: ServiceError) -> bool {
    if contains_seq(db_message, "UNIQUE constraint failed"@) {
        e matches ServiceError::BadRequest(m) && m@ == "Email already exists"@
    } else {
        e == ServiceError::InternalServerError
    }
}

/// Classifies the database's message about a failed registration.
pub fn registration_error(db_message: &str) -> (e: ServiceError)
    ensures
        registration_error_spec(db_message@, e),
        (exists|i: int|
            0 <= i && i + "UNIQUE constraint failed"@.len() <= db_message@.len()
                && #[trigger] db_message@.subrange(i, i + "UNIQUE constraint failed"@.len())
                == "UNIQUE constraint failed"@) ==> (e matches ServiceError::BadRequest(m) && m@
            == "Email already exists"@),
        !(exists|i: int|
            0 <= i && i + "UNIQUE constraint failed"@.len() <= db_message@.len()
                && #[trigger] db_message@.subrange(i, i + "UNIQUE constraint failed"@.len())
                == "UNIQUE constraint failed"@) ==> e == ServiceError::InternalServerError,
{
    proof {
        let pat = "UNIQUE constraint failed"@;
        if exists|i: int|
            0 <= i && i + pat.len() <= db_message@.len() && #[trigger] db_message@.subrange(
                i,
                i + pat.len(),
            ) == pat {
            let i = choose|i: int|
                0 <= i && i + pat.len() <= db_message@.len() && #[trigger] db_message@.subrange(
                    i,
                    i + pat.len(),
                ) == pat;
            assert(occurs_at(db_message@, pat, i));
        }
    }
    if contains_str(db_message, "UNIQUE constraint failed") {
        ServiceError::BadRequest(String::from_str("Email already exists"))
    } else {
        ServiceError::InternalServerError
    }
}

/// The database to connect to: the configured URL, or a local SQLite file
/// that is created where it does not exist.
pub fn database_url_or_default(value: Option<String>) -> (url: String)
    ensures
        url@ == match value {
            Some(v) => v@,
            None => "sqlite:db.db?mode=rwc"@,
        },
{
    match value {
        Some(v) => v,
        None => String::from_str("sqlite:db.db?mode=rwc"),
    }
}

/// Any database message that holds "UNIQUE constraint failed", wherever it
/// stands, is reported as the e-mail address being taken.
pub proof fn law_unique_violation_is_bad_request(
    before: Seq<char>,
    after: Seq<char>,
    e: ServiceError,
)
    requires
        registration_error_spec(before + "UNIQUE constraint failed"@ + after, e),
    ensures
        e matches ServiceError::BadRequest(m) && m@ == "Email already exists"@,
{
    let pat = "UNIQUE constraint failed"@;
    let msg = before + pat + after;
    let i = before.len() as int;
    assert(msg.subrange(i, i + pat.len()) =~= pat);
    assert(occurs_at(msg, pat, i));
}

/// A database message without "UNIQUE constraint failed" is an internal error.
pub proof fn law_other_failure_is_internal(db_message: Seq<char>, e: ServiceError)
    requires
        registration_error_spec(db_message, e),
        forall|i: int|
            0 <= i && i + "UNIQUE constraint failed"@.len() <= db_message.len() ==> #[trigger] db_message.subrange(
                i,
                i + "UNIQUE constraint failed"@.len(),
            ) != "UNIQUE constraint failed"@,
    ensures
        e == ServiceError::InternalServerError,
{
}

} // verus!
