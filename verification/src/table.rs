//! The user table as a sequence of rows: what it means for a row to be in
//! it, which tables are consistent, and what each write does to one.

use vstd::prelude::*;
use crate::error::RepoError;
use crate::models::{NewUserView, UserView};

verus! {

/// Some row has this identifier.
pub open spec fn holds_id(rows: Seq<UserView>, id: u128) -> bool {
    exists|i: int| 0 <= i < rows.len() && (#[trigger] rows[i]).id == id
}

/// Some row has this email.
pub open spec fn holds_email(rows: Seq<UserView>, email: Seq<char>) -> bool {
    exists|i: int| 0 <= i < rows.len() && (#[trigger] rows[i]).email == email
}

/// Some row other than the one with identifier `id` has this email.
pub open spec fn email_held_by_other(rows: Seq<UserView>, id: u128, email: Seq<char>) -> bool {
    exists|i: int| 0 <= i < rows.len() && (#[trigger] rows[i]).email == email && rows[i].id != id
}

/// Where the row with this identifier stands, if there is one.
pub open spec fn index_of_id(rows: Seq<UserView>, id: u128) -> int {
    choose|i: int| 0 <= i < rows.len() && (#[trigger] rows[i]).id == id
}

/// Where the row with this email stands, if there is one.
pub open spec fn index_of_email(rows: Seq<UserView>, email: Seq<char>) -> int {
    choose|i: int| 0 <= i < rows.len() && (#[trigger] rows[i]).email == email
}

/// The row with this identifier.
pub open spec fn lookup_id(rows: Seq<UserView>, id: u128) -> Option<UserView> {
    if holds_id(rows, id) {
        Some(rows[index_of_id(rows, id)])
    } else {
        None
    }
}

/// The row with this email.
pub open spec fn lookup_email(rows: Seq<UserView>, email: Seq<char>) -> Option<UserView> {
    if holds_email(rows, email) {
        Some(rows[index_of_email(rows, email)])
    } else {
        None
    }
}

/// The constraints of the table: no identifier and no email occurs twice,
/// and no row was updated before it was created.
pub open spec fn consistent(rows: Seq<UserView>) -> bool {
    &&& forall|i: int, j: int|
        0 <= i < j < rows.len() ==> (#[trigger] rows[i]).id != (#[trigger] rows[j]).id
    &&& forall|i: int, j: int|
        0 <= i < j < rows.len() ==> (#[trigger] rows[i]).email != (#[trigger] rows[j]).email
    &&& forall|i: int| 0 <= i < rows.len() ==> (#[trigger] rows[i]).created_at <= rows[i].updated_at
}

/// A write at `now` can give a row last written at `previous` a later
/// update time.
pub open spec fn can_advance(previous: i64, now: i64) -> bool {
    now > previous || previous < i64::MAX
}

/// The update time of a row after a write at `now`: the clock's reading, or
/// the next microsecond where the clock has not moved past the last write.
pub open spec fn later_instant(previous: i64, now: i64) -> i64 {
    if now > previous {
        now
    } else {
        (previous + 1) as i64
    }
}

/// The row that an insertion at `now` makes of the supplied columns.
pub open spec fn new_row(id: u128, columns: NewUserView, now: i64) -> UserView {
    UserView {
        id,
        email: columns.email,
        password_hash: columns.password_hash,
        name: columns.name,
        created_at: now,
        updated_at: now,
    }
}

/// What an insertion answers: the new row, or a conflict where the
/// identifier or the email is taken.
pub open spec fn insert_result(rows: Seq<UserView>, id: u128, columns: NewUserView, now: i64)
    -> Result<UserView, RepoError> {
    if holds_id(rows, id) || holds_email(rows, columns.email) {
        Err(RepoError::Conflict)
    } else {
        Ok(new_row(id, columns, now))
    }
}

/// The table after an insertion with the given answer.
pub open spec fn after_insert(rows: Seq<UserView>, answer: Result<UserView, RepoError>) -> Seq<
    UserView,
> {
    match answer {
        Ok(row) => rows.push(row),
        Err(_) => rows,
    }
}

/// What a change of email and name answers: the changed row; or that there
/// is no such row; or, failing that, a conflict where another row has the
/// email; or, failing that, that the row's update time cannot advance.
pub open spec fn profile_update_result(
    rows: Seq<UserView>,
    id: u128,
    email: Seq<char>,
    name: Seq<char>,
    now: i64,
) -> Result<UserView, RepoError> {
    if !holds_id(rows, id) {
        Err(RepoError::NotFound)
    } else if email_held_by_other(rows, id, email) {
        Err(RepoError::Conflict)
    } else {
        let row = rows[index_of_id(rows, id)];
        if !can_advance(row.updated_at, now) {
            Err(RepoError::ResourceExhausted)
        } else {
            Ok(UserView { email, name, updated_at: later_instant(row.updated_at, now), ..row })
        }
    }
}

/// What a change of the password hash answers: the changed row; or that
/// there is no such row; or, failing that, that the row's update time cannot
/// advance.
pub open spec fn password_update_result(
    rows: Seq<UserView>,
    id: u128,
    password_hash: Seq<char>,
    now: i64,
) -> Result<UserView, RepoError> {
    if !holds_id(rows, id) {
        Err(RepoError::NotFound)
    } else {
        let row = rows[index_of_id(rows, id)];
        if !can_advance(row.updated_at, now) {
            Err(RepoError::ResourceExhausted)
        } else {
            Ok(UserView { password_hash, updated_at: later_instant(row.updated_at, now), ..row })
        }
    }
}

/// The table after an update of the row `id` with the given answer.
pub open spec fn after_update(rows: Seq<UserView>, id: u128, answer: Result<UserView, RepoError>)
    -> Seq<UserView> {
    match answer {
        Ok(row) => rows.update(index_of_id(rows, id), row),
        Err(_) => rows,
    }
}

/// How many rows a deletion removes: one if the identifier is held, else
/// none.
pub open spec fn delete_count(rows: Seq<UserView>, id: u128) -> int {
    if holds_id(rows, id) {
        1
    } else {
        0
    }
}

/// The table after the deletion of the row `id`.
pub open spec fn after_delete(rows: Seq<UserView>, id: u128) -> Seq<UserView> {
    if holds_id(rows, id) {
        rows.remove(index_of_id(rows, id))
    } else {
        rows
    }
}

/// In a consistent table a row is found under its identifier and under its
/// email at the place where it stands.
pub proof fn lemma_row_is_found(rows: Seq<UserView>, i: int)
    requires
        consistent(rows),
        0 <= i < rows.len(),
    ensures
        holds_id(rows, rows[i].id),
        holds_email(rows, rows[i].email),
        index_of_id(rows, rows[i].id) == i,
        index_of_email(rows, rows[i].email) == i,
        lookup_id(rows, rows[i].id) == Some(rows[i]),
        lookup_email(rows, rows[i].email) == Some(rows[i]),
{
    let by_id = index_of_id(rows, rows[i].id);
    let by_email = index_of_email(rows, rows[i].email);
    assert(by_id == i) by {
        if by_id < i {
            assert(rows[by_id].id != rows[i].id);
        } else if i < by_id {
            assert(rows[i].id != rows[by_id].id);
        }
    }
    assert(by_email == i) by {
        if by_email < i {
            assert(rows[by_email].email != rows[i].email);
        } else if i < by_email {
            assert(rows[i].email != rows[by_email].email);
        }
    }
}

/// A row whose identifier and email are new to a consistent table can be
/// appended to it.
pub proof fn lemma_push_keeps_consistent(rows: Seq<UserView>, row: UserView)
    requires
        consistent(rows),
        !holds_id(rows, row.id),
        !holds_email(rows, row.email),
        row.created_at <= row.updated_at,
    ensures
        consistent(rows.push(row)),
{
    let after = rows.push(row);
    assert forall|i: int, j: int| 0 <= i < j < after.len() implies {
        &&& (#[trigger] after[i]).id != (#[trigger] after[j]).id
        &&& after[i].email != after[j].email
    } by {
        if j == rows.len() {
            assert(rows[i].id != row.id && rows[i].email != row.email);
        } else {
            assert(rows[i].id != rows[j].id && rows[i].email != rows[j].email);
        }
    }
}

/// In a consistent table no other row has the email of a given row.
pub proof fn lemma_email_is_its_own(rows: Seq<UserView>, i: int)
    requires
        consistent(rows),
        0 <= i < rows.len(),
    ensures
        !email_held_by_other(rows, rows[i].id, rows[i].email),
{
    assert forall|k: int| 0 <= k < rows.len() && k != i implies (#[trigger] rows[k]).email
        != rows[i].email by {
        if k < i {
            assert(rows[k].email != rows[i].email);
        } else {
            assert(rows[i].email != rows[k].email);
        }
    }
}

/// A row of a consistent table can be replaced by one with the same
/// identifier whose email no other row holds.
pub proof fn lemma_update_keeps_consistent(rows: Seq<UserView>, i: int, row: UserView)
    requires
        consistent(rows),
        0 <= i < rows.len(),
        row.id == rows[i].id,
        !email_held_by_other(rows, row.id, row.email),
        row.created_at <= row.updated_at,
    ensures
        consistent(rows.update(i, row)),
{
    let after = rows.update(i, row);
    assert forall|a: int, b: int| 0 <= a < b < after.len() implies {
        &&& (#[trigger] after[a]).id != (#[trigger] after[b]).id
        &&& after[a].email != after[b].email
    } by {
        assert(rows[a].id != rows[b].id && rows[a].email != rows[b].email);
        if a == i {
            assert(rows[b].email != row.email);
        } else if b == i {
            assert(rows[a].email != row.email);
        }
    }
}

/// A row can be taken out of a consistent table, and neither its identifier
/// nor its email is held after that.
pub proof fn lemma_remove_keeps_consistent(rows: Seq<UserView>, i: int)
    requires
        consistent(rows),
        0 <= i < rows.len(),
    ensures
        consistent(rows.remove(i)),
        !holds_id(rows.remove(i), rows[i].id),
        !holds_email(rows.remove(i), rows[i].email),
{
    let after = rows.remove(i);
    // where a row of `after` stood in `rows`
    let stood = |a: int| if a < i { a } else { a + 1 };
    assert forall|a: int, b: int| 0 <= a < b < after.len() implies {
        &&& (#[trigger] after[a]).id != (#[trigger] after[b]).id
        &&& after[a].email != after[b].email
    } by {
        assert(rows[stood(a)].id != rows[stood(b)].id);
        assert(rows[stood(a)].email != rows[stood(b)].email);
    }
    assert forall|a: int| 0 <= a < after.len() implies {
        &&& (#[trigger] after[a]).created_at <= after[a].updated_at
        &&& after[a].id != rows[i].id
        &&& after[a].email != rows[i].email
    } by {
        if stood(a) < i {
            assert(rows[stood(a)].id != rows[i].id && rows[stood(a)].email != rows[i].email);
        } else {
            assert(rows[i].id != rows[stood(a)].id && rows[i].email != rows[stood(a)].email);
        }
    }
}

} // verus!
