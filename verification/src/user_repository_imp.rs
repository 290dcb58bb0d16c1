//! The access layer over the in-memory table.

use vstd::prelude::*;
use crate::error::RepoError;
use crate::model_response::ModelResponse;
use crate::models::{NewUser, NewUserView, UserResponse, UserResponseView, UserView};
use crate::password::{cost_allowed, PasswordHasher, DEFAULT_COST};
use crate::sources::{fresh_id, is_random_uuid, now_micros};
use crate::store::UserStore;
use crate::table::{
    after_insert, after_update, consistent, holds_email, insert_result, password_update_result,
    profile_update_result,
};
use crate::user_repository::{shown, UserRepository};

verus! {

/// A user table together with the hasher for its passwords.
pub struct UserRepositoryImp {
    pub store: UserStore,
    pub hasher: PasswordHasher,
}

/// The response for the row of a successful write, or its error.
pub open spec fn shaped_result(answer: Result<UserView, RepoError>) -> Result<
    UserResponseView,
    RepoError,
> {
    match answer {
        Ok(row) => Ok(row.shaped()),
        Err(e) => Err(e),
    }
}

/// What the table answers to the insertion of a checked request: a
/// malformed one is refused before the table is asked.
pub open spec fn checked_insert_result(
    rows: Seq<UserView>,
    id: u128,
    columns: NewUserView,
    now: i64,
) -> Result<UserView, RepoError> {
    if !columns.well_formed() {
        Err(RepoError::Validation)
    } else {
        insert_result(rows, id, columns, now)
    }
}

impl UserRepositoryImp {
    /// A repository over `store` that hashes at the default work factor.
    pub fn new(store: UserStore) -> (repository: UserRepositoryImp)
        ensures
            repository.store@ == store@,
            repository.hasher.cost == DEFAULT_COST,
    {
        UserRepositoryImp { store, hasher: PasswordHasher::new() }
    }

    /// A repository over `store` that hashes with `hasher`.
    pub fn with_hasher(store: UserStore, hasher: PasswordHasher) -> (repository:
        UserRepositoryImp)
        ensures
            repository.store@ == store@,
            repository.hasher == hasher,
    {
        UserRepositoryImp { store, hasher }
    }
}

impl UserRepositoryImp {
    /// Stores a user whose password is already hashed, under the given
    /// identifier, as created at `now`. Refused with `Validation` where the
    /// email or the name is empty; else with `Conflict` where the email or
    /// the identifier is taken.
    pub fn create_user_with(&mut self, new_user: NewUser, id: u128, now: i64) -> (answer: Result<
        UserResponse,
        RepoError,
    >)
        ensures
            consistent(old(self).store@),
            consistent(final(self).store@),
            shown(answer) == shaped_result(
                checked_insert_result(old(self).store@, id, new_user@, now),
            ),
            final(self).store@ == after_insert(
                old(self).store@,
                checked_insert_result(old(self).store@, id, new_user@, now),
            ),
            final(self).hasher == old(self).hasher,
    {
        proof {
            use_type_invariant(&self.store);
        }
        match new_user.validate() {
            Ok(()) => {},
            Err(e) => {
                return Err(e);
            },
        }
        match self.store.insert(id, new_user, now) {
            Ok(created_user) => Ok(created_user.to_response()),
            Err(e) => Err(e),
        }
    }

    /// Changes the email and the name of a user at the clock reading `now`.
    /// Refused as `UserStore::update_profile` refuses.
    pub fn update_user_at(&mut self, user_id: u128, new_email: &str, new_name: &str, now: i64)
        -> (answer: Result<UserResponse, RepoError>)
        ensures
            consistent(old(self).store@),
            consistent(final(self).store@),
            shown(answer) == shaped_result(
                profile_update_result(old(self).store@, user_id, new_email@, new_name@, now),
            ),
            final(self).store@ == after_update(
                old(self).store@,
                user_id,
                profile_update_result(old(self).store@, user_id, new_email@, new_name@, now),
            ),
            final(self).hasher == old(self).hasher,
    {
        match self.store.update_profile(user_id, new_email, new_name, now) {
            Ok(updated_user) => Ok(updated_user.to_response()),
            Err(e) => Err(e),
        }
    }

    /// Replaces the stored hash of a user by `pwd_hash` at the clock reading
    /// `now`. Refused as `UserStore::update_password_hash` refuses.
    pub fn update_password_with(&mut self, id: u128, pwd_hash: String, now: i64) -> (answer:
        Result<UserResponse, RepoError>)
        ensures
            consistent(old(self).store@),
            consistent(final(self).store@),
            shown(answer) == shaped_result(
                password_update_result(old(self).store@, id, pwd_hash@, now),
            ),
            final(self).store@ == after_update(
                old(self).store@,
                id,
                password_update_result(old(self).store@, id, pwd_hash@, now),
            ),
            final(self).hasher == old(self).hasher,
    {
        match self.store.update_password_hash(id, pwd_hash, now) {
            Ok(updated_user) => Ok(updated_user.to_response()),
            Err(e) => Err(e),
        }
    }
}

impl UserRepository for UserRepositoryImp {
    open spec fn rows(&self) -> Seq<UserView> {
        self.store@
    }

    fn find_by_email(&self, email: &str) -> (answer: Result<Option<UserResponse>, RepoError>) {
        match self.store.find_by_email(email) {
            Some(user) => Ok(Some(user.to_response())),
            None => Ok(None),
        }
    }

    /// The identifier of a stored user is that of a random UUID, and its
    /// creation time is the reading of the clock. With a hasher whose work
    /// factor bcrypt does not take, a request that is neither malformed nor
    /// in conflict fails with `Hashing`.
    fn create_user(&mut self, new_user_data: NewUser) -> (answer: Result<UserResponse, RepoError>)
        ensures
            final(self).hasher == old(self).hasher,
            shown(answer) matches Ok(response) ==> is_random_uuid(response.id) && cost_allowed(
                old(self).hasher.cost,
            ),
            !cost_allowed(old(self).hasher.cost) && new_user_data@.well_formed() && !holds_email(
                old(self).store@,
                new_user_data.email@,
            ) ==> answer == Err::<UserResponse, RepoError>(RepoError::Hashing),
    {
        proof {
            use_type_invariant(&self.store);
        }
        match new_user_data.validate() {
            Ok(()) => {},
            Err(e) => {
                return Err(e);
            },
        }
        if self.store.find_by_email(new_user_data.email.as_str()).is_some() {
            return Err(RepoError::Conflict);
        }
        let pwd_hash = match self.hasher.hash(new_user_data.password_hash.as_str()) {
            Ok(h) => h,
            Err(e) => {
                return Err(e);
            },
        };
        let new_user = NewUser {
            email: new_user_data.email,
            password_hash: pwd_hash,
            name: new_user_data.name,
        };
        let id = fresh_id();
        let now = now_micros();
        self.create_user_with(new_user, id, now)
    }

    fn update_user(&mut self, user_id: u128, new_email: &str, new_name: &str) -> (answer: Result<
        UserResponse,
        RepoError,
    >)
        ensures
            final(self).hasher == old(self).hasher,
    {
        let now = now_micros();
        self.update_user_at(user_id, new_email, new_name, now)
    }

    /// With a hasher whose work factor bcrypt does not take, no password is
    /// replaced.
    fn update_password(&mut self, id: u128, new_password: &str) -> (answer: Result<
        UserResponse,
        RepoError,
    >)
        ensures
            final(self).hasher == old(self).hasher,
            answer is Ok ==> cost_allowed(old(self).hasher.cost),
    {
        match self.store.get(id) {
            None => {
                return Err(RepoError::NotFound);
            },
            Some(user) => {
                if user.updated_at == i64::MAX {
                    return Err(RepoError::ResourceExhausted);
                }
            },
        }
        let pwd_hash = match self.hasher.hash(new_password) {
            Ok(h) => h,
            Err(e) => {
                return Err(e);
            },
        };
        let now = now_micros();
        self.update_password_with(id, pwd_hash, now)
    }

    fn delete_user(&mut self, id: u128) -> (answer: Result<i32, RepoError>)
        ensures
            final(self).hasher == old(self).hasher,
    {
        let deleted_count = self.store.delete(id);
        Ok(deleted_count as i32)
    }
}

} // verus!
