//! The closed set of failures that the access layer reports.

use vstd::prelude::*;
use vstd::string::StringExecFns;

verus! {

/// Why an operation on the user table was refused.
#[derive(Clone, Copy, Debug, PartialEq, Eq, Structural)]
pub enum RepoError {
    /// The request itself is malformed: an empty email or an empty name.
    Validation,
    /// The email, or the identifier, is already held by another record.
    Conflict,
    /// No record has the identifier that the operation names.
    NotFound,
    /// The password could not be hashed. Nothing is stored in that case.
    Hashing,
    /// The store cannot serve the request: no connection could be leased, or
    /// a record has reached the last instant that its update time can hold.
    ResourceExhausted,
}

impl RepoError {
    /// The text that `message` returns for each failure.
    pub open spec fn message_text(self) -> Seq<char> {
        match self {
            RepoError::Validation => "email and name must not be empty"@,
            RepoError::Conflict => "a user with this email already exists"@,
            RepoError::NotFound => "no such user"@,
            RepoError::Hashing => "Failed to hash password"@,
            RepoError::ResourceExhausted => "the user store is exhausted"@,
        }
    }

    /// A sentence for the caller who has to show the failure to someone.
    pub fn message(&self) -> (text: String)
        ensures
            text@ == self.message_text(),
    {
        match self {
            RepoError::Validation => String::from_str("email and name must not be empty"),
            RepoError::Conflict => String::from_str("a user with this email already exists"),
            RepoError::NotFound => String::from_str("no such user"),
            RepoError::Hashing => String::from_str("Failed to hash password"),
            RepoError::ResourceExhausted => String::from_str("the user store is exhausted"),
        }
    }
}

} // verus!
