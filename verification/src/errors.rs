use vstd::prelude::*;

verus! {

/// The errors that the service reports to its HTTP clients.
#[derive(Debug, Clone, PartialEq, Eq)]
pub enum ServiceError {
    /// Something failed on the server's side.
    InternalServerError,
    /// The request was refused, with a message for the client.
    BadRequest(String),
    /// The caller is not, or could not be, authenticated.
    Unauthorized,
}

} // verus!
