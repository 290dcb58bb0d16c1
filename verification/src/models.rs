//! The records of the user table and what is shown of them.
//!
//! An identifier is the 128-bit value of a UUID. An instant is a count of
//! microseconds since the Unix epoch, in UTC.

use vstd::prelude::*;

verus! {

/// A stored account.
#[derive(Debug, PartialEq, Eq)]
pub struct User {
    pub id: u128,
    pub email: String,
    pub password_hash: String,
    pub name: String,
    pub created_at: i64,
    pub updated_at: i64,
}

/// What a `User` is to a contract.
pub struct UserView {
    pub id: u128,
    pub email: Seq<char>,
    pub password_hash: Seq<char>,
    pub name: Seq<char>,
    pub created_at: i64,
    pub updated_at: i64,
}

impl View for User {
    type V = UserView;

    open spec fn view(&self) -> UserView {
        UserView {
            id: self.id,
            email: self.email@,
            password_hash: self.password_hash@,
            name: self.name@,
            created_at: self.created_at,
            updated_at: self.updated_at,
        }
    }
}

impl Clone for User {
    fn clone(&self) -> (copy: User)
        ensures
            copy@ == self@,
    {
        User {
            id: self.id,
            email: self.email.clone(),
            password_hash: self.password_hash.clone(),
            name: self.name.clone(),
            created_at: self.created_at,
            updated_at: self.updated_at,
        }
    }
}

/// The columns that a caller supplies for a new row. Handed to
/// `create_user`, `password_hash` holds the password as it was typed; the row
/// that reaches the table holds its hash there.
#[derive(Debug, PartialEq, Eq)]
pub struct NewUser {
    pub email: String,
    pub password_hash: String,
    pub name: String,
}

/// What a `NewUser` is to a contract.
pub struct NewUserView {
    pub email: Seq<char>,
    pub password_hash: Seq<char>,
    pub name: Seq<char>,
}

impl View for NewUser {
    type V = NewUserView;

    open spec fn view(&self) -> NewUserView {
        NewUserView { email: self.email@, password_hash: self.password_hash@, name: self.name@ }
    }
}

impl Clone for NewUser {
    fn clone(&self) -> (copy: NewUser)
        ensures
            copy@ == self@,
    {
        NewUser {
            email: self.email.clone(),
            password_hash: self.password_hash.clone(),
            name: self.name.clone(),
        }
    }
}

impl NewUserView {
    /// A request is well formed when neither its email nor its name is empty.
    pub open spec fn well_formed(self) -> bool {
        self.email.len() > 0 && self.name.len() > 0
    }
}

impl NewUser {
    /// Refuses a request with an empty email or an empty name.
    pub fn validate(&self) -> (checked: Result<(), crate::error::RepoError>)
        ensures
            checked == if self@.well_formed() {
                Ok::<(), crate::error::RepoError>(())
            } else {
                Err::<(), crate::error::RepoError>(crate::error::RepoError::Validation)
            },
    {
        if self.email.as_str().is_empty() || self.name.as_str().is_empty() {
            Err(crate::error::RepoError::Validation)
        } else {
            Ok(())
        }
    }
}

/// The public face of an account: everything but the password hash and the
/// time of the last update.
#[derive(Debug, PartialEq, Eq)]
pub struct UserResponse {
    pub id: u128,
    pub email: String,
    pub name: String,
    pub created_at: i64,
}

/// What a `UserResponse` is to a contract.
pub struct UserResponseView {
    pub id: u128,
    pub email: Seq<char>,
    pub name: Seq<char>,
    pub created_at: i64,
}

impl View for UserResponse {
    type V = UserResponseView;

    open spec fn view(&self) -> UserResponseView {
        UserResponseView {
            id: self.id,
            email: self.email@,
            name: self.name@,
            created_at: self.created_at,
        }
    }
}

impl Clone for UserResponse {
    fn clone(&self) -> (copy: UserResponse)
        ensures
            copy@ == self@,
    {
        UserResponse {
            id: self.id,
            email: self.email.clone(),
            name: self.name.clone(),
            created_at: self.created_at,
        }
    }
}

impl UserView {
    /// The response that stands for this record.
    pub open spec fn shaped(self) -> UserResponseView {
        UserResponseView {
            id: self.id,
            email: self.email,
            name: self.name,
            created_at: self.created_at,
        }
    }
}

} // verus!
