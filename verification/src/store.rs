//! The user table, kept in memory.

use vstd::prelude::*;
use crate::error::RepoError;
use crate::models::{NewUser, User, UserView};
use crate::table::{
    after_delete, after_insert, after_update, can_advance, consistent, delete_count,
    email_held_by_other, holds_email, holds_id, index_of_id, insert_result, later_instant,
    lemma_email_is_its_own, lemma_push_keeps_consistent, lemma_remove_keeps_consistent,
    lemma_row_is_found, lemma_update_keeps_consistent, lookup_email, lookup_id,
    password_update_result, profile_update_result,
};
use crate::text::same_text;

verus! {

/// The rows of the user table, in the order in which they were inserted.
/// Every store is consistent: it is only changed through the operations
/// below, and each of them keeps the table's constraints.
pub struct UserStore {
    rows: Vec<User>,
}

impl View for UserStore {
    type V = Seq<UserView>;

    closed spec fn view(&self) -> Seq<UserView> {
        self.rows@.map_values(|u: User| u@)
    }
}

/// What a write answered, as a contract sees it.
pub open spec fn row_result(answer: Result<User, RepoError>) -> Result<UserView, RepoError> {
    match answer {
        Ok(row) => Ok(row@),
        Err(e) => Err(e),
    }
}

/// What a lookup answered, as a contract sees it.
pub open spec fn row_found(answer: Option<&User>) -> Option<UserView> {
    match answer {
        Some(row) => Some(row@),
        None => None,
    }
}

/// The update time that a write at `now` gives a row last written at
/// `previous`, or `None` where there is no later instant.
pub fn advance(previous: i64, now: i64) -> (next: Option<i64>)
    ensures
        next == if can_advance(previous, now) {
            Some(later_instant(previous, now))
        } else {
            None
        },
        next matches Some(t) ==> t > previous && t >= now,
{
    if now > previous {
        Some(now)
    } else if previous < i64::MAX {
        Some(previous + 1)
    } else {
        None
    }
}

impl UserStore {
    /// Holds of every store at all times.
    #[verifier::type_invariant]
    pub open spec fn well_formed(self) -> bool {
        consistent(self@)
    }

    /// An empty table.
    pub fn new() -> (store: UserStore)
        ensures
            store@ == Seq::<UserView>::empty(),
    {
        UserStore { rows: Vec::new() }
    }

    /// The number of rows.
    pub fn len(&self) -> (n: usize)
        ensures
            n == self@.len(),
            consistent(self@),
    {
        proof {
            use_type_invariant(self);
        }
        self.rows.len()
    }

    /// All rows, oldest first.
    pub fn rows(&self) -> (rows: &Vec<User>)
        ensures
            rows@.map_values(|u: User| u@) == self@,
            consistent(self@),
    {
        proof {
            use_type_invariant(self);
        }
        &self.rows
    }

    fn position_of_id(&self, id: u128) -> (at: Option<usize>)
        ensures
            consistent(self@),
            at is Some == holds_id(self@, id),
            at matches Some(i) ==> i < self@.len() && i == index_of_id(self@, id),
    {
        proof {
            use_type_invariant(self);
        }
        let mut i: usize = 0;
        while i < self.rows.len()
            invariant
                i <= self.rows.len(),
                consistent(self@),
                forall|k: int| 0 <= k < i ==> (#[trigger] self@[k]).id != id,
            decreases self.rows.len() - i,
        {
            if self.rows[i].id == id {
                proof {
                    lemma_row_is_found(self@, i as int);
                }
                return Some(i);
            }
            i += 1;
        }
        None
    }

    fn position_of_email(&self, email: &str) -> (at: Option<usize>)
        ensures
            consistent(self@),
            at is Some == holds_email(self@, email@),
            at matches Some(i) ==> i < self@.len() && i == crate::table::index_of_email(
                self@,
                email@,
            ),
    {
        proof {
            use_type_invariant(self);
        }
        let mut i: usize = 0;
        while i < self.rows.len()
            invariant
                i <= self.rows.len(),
                consistent(self@),
                forall|k: int| 0 <= k < i ==> (#[trigger] self@[k]).email != email@,
            decreases self.rows.len() - i,
        {
            if same_text(self.rows[i].email.as_str(), email) {
                proof {
                    lemma_row_is_found(self@, i as int);
                }
                return Some(i);
            }
            i += 1;
        }
        None
    }

    /// The row with this identifier.
    pub fn get(&self, id: u128) -> (found: Option<&User>)
        ensures
            row_found(found) == lookup_id(self@, id),
            consistent(self@),
    {
        match self.position_of_id(id) {
            Some(i) => Some(&self.rows[i]),
            None => None,
        }
    }

    /// The row with this email.
    pub fn find_by_email(&self, email: &str) -> (found: Option<&User>)
        ensures
            row_found(found) == lookup_email(self@, email@),
            consistent(self@),
    {
        match self.position_of_email(email) {
            Some(i) => Some(&self.rows[i]),
            None => None,
        }
    }

    /// Inserts a row with the given identifier and columns, created at
    /// `now`. Refused with `Conflict` where the identifier or the email is
    /// already in the table.
    pub fn insert(&mut self, id: u128, columns: NewUser, now: i64) -> (answer: Result<
        User,
        RepoError,
    >)
        ensures
            consistent(old(self)@),
            consistent(final(self)@),
            row_result(answer) == insert_result(old(self)@, id, columns@, now),
            final(self)@ == after_insert(old(self)@, row_result(answer)),
    {
        if self.position_of_id(id).is_some() || self.position_of_email(
            columns.email.as_str(),
        ).is_some() {
            return Err(RepoError::Conflict);
        }
        let row = User {
            id,
            email: columns.email,
            password_hash: columns.password_hash,
            name: columns.name,
            created_at: now,
            updated_at: now,
        };
        let copy = row.clone();
        let mut rows: Vec<User> = Vec::new();
        std::mem::swap(&mut rows, &mut self.rows);
        rows.push(row);
        proof {
            lemma_push_keeps_consistent(old(self)@, copy@);
            assert(rows@.map_values(|u: User| u@) =~= old(self)@.push(copy@));
        }
        self.rows = rows;
        Ok(copy)
    }

    fn other_holds_email(&self, id: u128, email: &str) -> (held: bool)
        ensures
            held == email_held_by_other(self@, id, email@),
    {
        let mut i: usize = 0;
        while i < self.rows.len()
            invariant
                i <= self.rows.len(),
                forall|k: int|
                    0 <= k < i ==> !((#[trigger] self@[k]).email == email@ && self@[k].id != id),
            decreases self.rows.len() - i,
        {
            if self.rows[i].id != id && same_text(self.rows[i].email.as_str(), email) {
                assert(self@[i as int].email == email@ && self@[i as int].id != id);
                return true;
            }
            i += 1;
        }
        false
    }

    /// Gives the row `id` a new email and a new name, and a later update
    /// time. Refused with `NotFound` where there is no such row; else with
    /// `Conflict` where another row has the email; else with
    /// `ResourceExhausted` where the row's update time is the last instant
    /// there is and `now` is not later.
    pub fn update_profile(&mut self, id: u128, email: &str, name: &str, now: i64) -> (answer:
        Result<User, RepoError>)
        ensures
            consistent(old(self)@),
            consistent(final(self)@),
            row_result(answer) == profile_update_result(old(self)@, id, email@, name@, now),
            final(self)@ == after_update(old(self)@, id, row_result(answer)),
    {
        let i = match self.position_of_id(id) {
            Some(i) => i,
            None => {
                return Err(RepoError::NotFound);
            },
        };
        if self.other_holds_email(id, email) {
            return Err(RepoError::Conflict);
        }
        let next = match advance(self.rows[i].updated_at, now) {
            Some(t) => t,
            None => {
                return Err(RepoError::ResourceExhausted);
            },
        };
        let mut rows: Vec<User> = Vec::new();
        std::mem::swap(&mut rows, &mut self.rows);
        rows[i].email = email.to_owned();
        rows[i].name = name.to_owned();
        rows[i].updated_at = next;
        let copy = rows[i].clone();
        proof {
            lemma_update_keeps_consistent(old(self)@, i as int, copy@);
            assert(rows@.map_values(|u: User| u@) =~= old(self)@.update(i as int, copy@));
        }
        self.rows = rows;
        Ok(copy)
    }

    /// Gives the row `id` a new password hash, and a later update time.
    /// Refused with `NotFound` where there is no such row; else with
    /// `ResourceExhausted` where the row's update time is the last instant
    /// there is and `now` is not later.
    pub fn update_password_hash(&mut self, id: u128, password_hash: String, now: i64) -> (answer:
        Result<User, RepoError>)
        ensures
            consistent(old(self)@),
            consistent(final(self)@),
            row_result(answer) == password_update_result(old(self)@, id, password_hash@, now),
            final(self)@ == after_update(old(self)@, id, row_result(answer)),
    {
        let i = match self.position_of_id(id) {
            Some(i) => i,
            None => {
                return Err(RepoError::NotFound);
            },
        };
        let next = match advance(self.rows[i].updated_at, now) {
            Some(t) => t,
            None => {
                return Err(RepoError::ResourceExhausted);
            },
        };
        let mut rows: Vec<User> = Vec::new();
        std::mem::swap(&mut rows, &mut self.rows);
        rows[i].password_hash = password_hash;
        rows[i].updated_at = next;
        let copy = rows[i].clone();
        proof {
            let before = old(self)@;
            lemma_email_is_its_own(before, i as int);
            lemma_update_keeps_consistent(before, i as int, copy@);
            assert(rows@.map_values(|u: User| u@) =~= before.update(i as int, copy@));
        }
        self.rows = rows;
        Ok(copy)
    }

    /// Removes the row `id` and says how many rows went: one, or none where
    /// there was no such row.
    pub fn delete(&mut self, id: u128) -> (count: usize)
        ensures
            consistent(old(self)@),
            consistent(final(self)@),
            count == delete_count(old(self)@, id),
            final(self)@ == after_delete(old(self)@, id),
    {
        match self.position_of_id(id) {
            Some(i) => {
                let mut rows: Vec<User> = Vec::new();
                std::mem::swap(&mut rows, &mut self.rows);
                let _ = rows.remove(i);
                proof {
                    lemma_remove_keeps_consistent(old(self)@, i as int);
                    assert(rows@.map_values(|u: User| u@) =~= old(self)@.remove(i as int));
                }
                self.rows = rows;
                1
            },
            None => 0,
        }
    }
}

} // verus!
