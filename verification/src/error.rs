//! The ways in which issuing or validating a token can fail.

use vstd::prelude::*;

verus! {

/// Why a request was turned down.
#[derive(Clone, Copy, Debug, PartialEq, Eq, Structural)]
pub enum AuthError {
    /// The credentials were rejected. Retrying with the right ones can succeed.
    Forbidden,
    /// The token is unknown to the store. Only a new login yields a valid one.
    NotFound,
    /// The store could not be reached because its lock is broken.
    Internal,
}

/// The HTTP status of a success.
pub const STATUS_OK: u16 = 200;

impl AuthError {
    /// The HTTP status that a transport layer answers with for this error.
    pub open spec fn status_code_spec(self) -> u16 {
        match self {
            AuthError::Forbidden => 403,
            AuthError::NotFound => 404,
            AuthError::Internal => 500,
        }
    }

    /// The HTTP status that a transport layer answers with for this error.
    #[verifier::when_used_as_spec(status_code_spec)]
    pub fn status_code(self) -> (code: u16)
        ensures
            code == self.status_code_spec(),
    {
        match self {
            AuthError::Forbidden => 403,
            AuthError::NotFound => 404,
            AuthError::Internal => 500,
        }
    }
}

/// The HTTP status that a transport layer answers `answer` with.
pub open spec fn answer_status<T>(answer: Result<T, AuthError>) -> u16 {
    match answer {
        Ok(_) => STATUS_OK,
        Err(e) => e.status_code_spec(),
    }
}

/// The HTTP status that a transport layer answers `answer` with: 200 for a
/// success, else the status of the error.
pub fn status_of<T>(answer: &Result<T, AuthError>) -> (code: u16)
    ensures
        code == answer_status(*answer),
{
    match answer {
        Ok(_) => STATUS_OK,
        Err(e) => e.status_code(),
    }
}

} // verus!
