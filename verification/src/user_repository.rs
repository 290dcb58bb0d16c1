//! The access layer of the user table: five operations, each answering with
//! a `UserResponse` or a count, never with a stored row.

use vstd::prelude::*;
use crate::error::RepoError;
use crate::models::{NewUser, NewUserView, UserResponse, UserResponseView, UserView};
use crate::password::accepts;
use crate::table::{
    after_delete, consistent, delete_count, email_held_by_other, holds_email, holds_id,
    index_of_id, lookup_email,
};

verus! {

/// An answer that carries a response, as a contract sees it.
pub open spec fn shown(answer: Result<UserResponse, RepoError>) -> Result<
    UserResponseView,
    RepoError,
> {
    match answer {
        Ok(response) => Ok(response@),
        Err(e) => Err(e),
    }
}

/// The answer of a lookup, as a contract sees it.
pub open spec fn shown_if_any(answer: Result<Option<UserResponse>, RepoError>) -> Result<
    Option<UserResponseView>,
    RepoError,
> {
    match answer {
        Ok(Some(response)) => Ok(Some(response@)),
        Ok(None) => Ok(None),
        Err(e) => Err(e),
    }
}

/// The response for a row, where there is a row.
pub open spec fn shaped_if_any(row: Option<UserView>) -> Option<UserResponseView> {
    match row {
        Some(row) => Some(row.shaped()),
        None => None,
    }
}

/// What `create_user` may answer to `request` on the table `before`, and the
/// table `after` it.
///
/// A malformed request is refused with `Validation`, and a well-formed one
/// whose email is taken with `Conflict`. Any other request either appends
/// one row, which has the request's email and name, a hash that bcrypt
/// accepts the request's password for, and an identifier new to the table,
/// and is answered with the response for that row; or it fails with
/// `Hashing`, or with `Conflict` where the identifier drawn for it is taken.
/// A refused request leaves the table as it was.
pub open spec fn create_user_outcome(
    before: Seq<UserView>,
    request: NewUserView,
    answer: Result<UserResponseView, RepoError>,
    after: Seq<UserView>,
) -> bool {
    match answer {
        Ok(response) => {
            let row = after.last();
            &&& request.well_formed()
            &&& !holds_email(before, request.email)
            &&& after == before.push(row)
            &&& !holds_id(before, row.id)
            &&& row.email == request.email
            &&& row.name == request.name
            &&& row.password_hash.len() > 0
            &&& accepts(request.password_hash, row.password_hash)
            &&& row.created_at == row.updated_at
            &&& response == row.shaped()
        },
        Err(e) => {
            &&& after == before
            &&& e == RepoError::Validation <==> !request.well_formed()
            &&& request.well_formed() && holds_email(before, request.email) ==> e
                == RepoError::Conflict
            &&& e == RepoError::Validation || e == RepoError::Conflict || e == RepoError::Hashing
        },
    }
}

/// What `update_user` answers on the table `before`, and the table `after`
/// it.
///
/// The request is refused with `NotFound` where no row has the identifier;
/// else with `Conflict` where another row has the email; else with
/// `ResourceExhausted` where the row's update time is the last instant there
/// is. Otherwise the row gets the email and the name and a strictly later
/// update time, nothing else changes, and the answer is the response for the
/// changed row. A refused request leaves the table as it was.
pub open spec fn update_user_outcome(
    before: Seq<UserView>,
    id: u128,
    email: Seq<char>,
    name: Seq<char>,
    answer: Result<UserResponseView, RepoError>,
    after: Seq<UserView>,
) -> bool {
    let at = index_of_id(before, id);
    if !holds_id(before, id) {
        answer == Err::<UserResponseView, RepoError>(RepoError::NotFound) && after == before
    } else if email_held_by_other(before, id, email) {
        answer == Err::<UserResponseView, RepoError>(RepoError::Conflict) && after == before
    } else if before[at].updated_at == i64::MAX {
        answer == Err::<UserResponseView, RepoError>(RepoError::ResourceExhausted) && after
            == before
    } else {
        &&& after.len() == before.len()
        &&& after == before.update(at, after[at])
        &&& after[at] == UserView { email, name, updated_at: after[at].updated_at, ..before[at] }
        &&& after[at].updated_at > before[at].updated_at
        &&& answer == Ok::<UserResponseView, RepoError>(after[at].shaped())
    }
}

/// What `update_password` may answer on the table `before`, and the table
/// `after` it.
///
/// The request is refused with `NotFound` where no row has the identifier;
/// else with `ResourceExhausted` where the row's update time is the last
/// instant there is. Otherwise it either fails with `Hashing`, or the row
/// gets a hash that bcrypt accepts the new password for and a strictly later
/// update time, nothing else changes, and the answer is the response for the
/// changed row. A refused or failed request leaves the table as it was.
pub open spec fn update_password_outcome(
    before: Seq<UserView>,
    id: u128,
    password: Seq<char>,
    answer: Result<UserResponseView, RepoError>,
    after: Seq<UserView>,
) -> bool {
    let at = index_of_id(before, id);
    if !holds_id(before, id) {
        answer == Err::<UserResponseView, RepoError>(RepoError::NotFound) && after == before
    } else if before[at].updated_at == i64::MAX {
        answer == Err::<UserResponseView, RepoError>(RepoError::ResourceExhausted) && after
            == before
    } else if answer is Err {
        answer == Err::<UserResponseView, RepoError>(RepoError::Hashing) && after == before
    } else {
        &&& after.len() == before.len()
        &&& after == before.update(at, after[at])
        &&& after[at] == UserView {
            password_hash: after[at].password_hash,
            updated_at: after[at].updated_at,
            ..before[at]
        }
        &&& after[at].password_hash.len() > 0
        &&& accepts(password, after[at].password_hash)
        &&& after[at].updated_at > before[at].updated_at
        &&& answer == Ok::<UserResponseView, RepoError>(after[at].shaped())
    }
}

/// The operations on the user table that the rest of a program is given.
pub trait UserRepository {
    /// The rows that the repository holds.
    spec fn rows(&self) -> Seq<UserView>;

    /// The user with this email, if there is one. Never an error.
    fn find_by_email(&self, email: &str) -> (answer: Result<Option<UserResponse>, RepoError>)
        ensures
            consistent(self.rows()),
            shown_if_any(answer) == Ok::<Option<UserResponseView>, RepoError>(
                shaped_if_any(lookup_email(self.rows(), email@)),
            ),
    ;

    /// Stores a new user under the hash of the password.
    fn create_user(&mut self, new_user_data: NewUser) -> (answer: Result<UserResponse, RepoError>)
        ensures
            consistent(old(self).rows()),
            consistent(final(self).rows()),
            create_user_outcome(
                old(self).rows(),
                new_user_data@,
                shown(answer),
                final(self).rows(),
            ),
    ;

    /// Changes the email and the name of a user.
    fn update_user(&mut self, user_id: u128, new_email: &str, new_name: &str) -> (answer: Result<
        UserResponse,
        RepoError,
    >)
        ensures
            consistent(old(self).rows()),
            consistent(final(self).rows()),
            update_user_outcome(
                old(self).rows(),
                user_id,
                new_email@,
                new_name@,
                shown(answer),
                final(self).rows(),
            ),
    ;

    /// Replaces the stored hash of a user by the hash of a new password.
    fn update_password(&mut self, id: u128, new_password: &str) -> (answer: Result<
        UserResponse,
        RepoError,
    >)
        ensures
            consistent(old(self).rows()),
            consistent(final(self).rows()),
            update_password_outcome(
                old(self).rows(),
                id,
                new_password@,
                shown(answer),
                final(self).rows(),
            ),
    ;

    /// Removes a user and says how many rows went. An identifier that no row
    /// has is no error: the count is then 0.
    fn delete_user(&mut self, id: u128) -> (answer: Result<i32, RepoError>)
        ensures
            consistent(old(self).rows()),
            consistent(final(self).rows()),
            answer == Ok::<i32, RepoError>(delete_count(old(self).rows(), id) as i32),
            final(self).rows() == after_delete(old(self).rows(), id),
    ;
}

} // verus!
