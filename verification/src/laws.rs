//! What holds across the operations of the access layer, proved from their
//! contracts.

use vstd::prelude::*;
use crate::error::RepoError;
use crate::models::{NewUserView, UserResponseView, UserView};
use crate::password::accepts;
use crate::table::{
    after_delete, consistent, delete_count, holds_email, holds_id, index_of_id,
    lemma_email_is_its_own, lemma_push_keeps_consistent, lemma_remove_keeps_consistent,
    lemma_row_is_found, lemma_update_keeps_consistent, lookup_email, lookup_id,
};
use crate::user_repository::{
    create_user_outcome, shaped_if_any, update_password_outcome, update_user_outcome,
};

verus! {

/// Exactly one row of the table has this email.
pub open spec fn exactly_one_with_email(rows: Seq<UserView>, email: Seq<char>) -> bool {
    exists|i: int|
        0 <= i < rows.len() && (#[trigger] rows[i]).email == email && forall|j: int|
            0 <= j < rows.len() && (#[trigger] rows[j]).email == email ==> j == i
}

/// A user that `create_user` has stored is the one that `find_by_email`
/// answers for the email of the request: the lookup gives the very response
/// that the creation gave, with the request's email and name.
pub proof fn law_created_user_is_found(
    before: Seq<UserView>,
    request: NewUserView,
    response: UserResponseView,
    after: Seq<UserView>,
)
    requires
        consistent(before),
        create_user_outcome(before, request, Ok(response), after),
    ensures
        consistent(after),
        shaped_if_any(lookup_email(after, request.email)) == Some(response),
        response.email == request.email,
        response.name == request.name,
        lookup_id(after, response.id) == Some(after.last()),
        response == after.last().shaped(),
{
    lemma_push_keeps_consistent(before, after.last());
    lemma_row_is_found(after, after.len() - 1);
}

/// Once a user is stored, creating another with the same email is refused
/// with `Conflict`, whatever else the second request holds, and the table
/// still has exactly one row with that email.
pub proof fn law_second_create_conflicts(
    before: Seq<UserView>,
    first: NewUserView,
    response: UserResponseView,
    between: Seq<UserView>,
    second: NewUserView,
    answer: Result<UserResponseView, RepoError>,
    after: Seq<UserView>,
)
    requires
        consistent(before),
        create_user_outcome(before, first, Ok(response), between),
        second.well_formed(),
        second.email == first.email,
        create_user_outcome(between, second, answer, after),
    ensures
        answer == Err::<UserResponseView, RepoError>(RepoError::Conflict),
        after == between,
        exactly_one_with_email(after, first.email),
{
    let last = between.len() - 1;
    lemma_push_keeps_consistent(before, between.last());
    lemma_row_is_found(between, last);
    assert(holds_email(between, second.email));
    assert forall|j: int|
        0 <= j < between.len() && (#[trigger] between[j]).email == first.email implies j
        == last by {
        if j < last {
            assert(between[j].email != between[last].email);
        }
    }
}

/// Deleting a user that was just created removes one row, and deleting it
/// once more removes none. The first deletion gives back the table as it was
/// before the user was created.
pub proof fn law_delete_after_create(
    before: Seq<UserView>,
    request: NewUserView,
    response: UserResponseView,
    created: Seq<UserView>,
)
    requires
        consistent(before),
        create_user_outcome(before, request, Ok(response), created),
    ensures
        delete_count(created, response.id) == 1,
        after_delete(created, response.id) == before,
        delete_count(after_delete(created, response.id), response.id) == 0,
{
    lemma_push_keeps_consistent(before, created.last());
    lemma_row_is_found(created, created.len() - 1);
    assert(created.remove(created.len() - 1) =~= before);
}

/// Deletion is idempotent: after one deletion of an identifier a second one
/// removes nothing and changes nothing.
pub proof fn law_delete_is_idempotent(rows: Seq<UserView>, id: u128)
    requires
        consistent(rows),
    ensures
        consistent(after_delete(rows, id)),
        0 <= delete_count(rows, id) <= 1,
        delete_count(after_delete(rows, id), id) == 0,
        after_delete(after_delete(rows, id), id) == after_delete(rows, id),
        after_delete(rows, id).len() == rows.len() - delete_count(rows, id),
{
    if holds_id(rows, id) {
        lemma_remove_keeps_consistent(rows, index_of_id(rows, id));
    }
}

/// After `update_password` has succeeded, the stored hash is one that bcrypt
/// accepts the new password for, so `verify` says yes to it; nothing but the
/// hash and the update time of that user has changed.
pub proof fn law_new_password_is_accepted(
    before: Seq<UserView>,
    id: u128,
    password: Seq<char>,
    response: UserResponseView,
    after: Seq<UserView>,
)
    requires
        consistent(before),
        update_password_outcome(before, id, password, Ok(response), after),
    ensures
        consistent(after),
        lookup_id(after, id) is Some,
        accepts(password, lookup_id(after, id)->0.password_hash),
        lookup_id(before, id) is Some,
        response == lookup_id(before, id)->0.shaped(),
        response == lookup_id(after, id)->0.shaped(),
{
    let at = index_of_id(before, id);
    lemma_email_is_its_own(before, at);
    lemma_update_keeps_consistent(before, at, after[at]);
    lemma_row_is_found(after, at);
}

/// A response says nothing of the password: it is made of the identifier,
/// the email, the name and the creation time of a row, so that two rows that
/// differ in their hash, or in their update time, have the same response.
pub proof fn law_response_hides_hash(a: UserView, b: UserView)
    requires
        a.id == b.id,
        a.email == b.email,
        a.name == b.name,
        a.created_at == b.created_at,
    ensures
        a.shaped() == b.shaped(),
{
}

/// Every successful update gives the row a strictly later update time, so
/// that an updated row was updated after it was created.
pub proof fn law_update_moves_time_forward(
    before: Seq<UserView>,
    id: u128,
    email: Seq<char>,
    name: Seq<char>,
    response: UserResponseView,
    after: Seq<UserView>,
)
    requires
        consistent(before),
        update_user_outcome(before, id, email, name, Ok(response), after),
    ensures
        consistent(after),
        lookup_id(before, id) is Some,
        lookup_id(after, id) is Some,
        lookup_id(after, id)->0.updated_at > lookup_id(before, id)->0.updated_at,
        lookup_id(after, id)->0.updated_at > lookup_id(after, id)->0.created_at,
        lookup_id(after, id)->0.created_at == lookup_id(before, id)->0.created_at,
        response == lookup_id(after, id)->0.shaped(),
        response.id == id,
        response.email == email,
        response.name == name,
{
    let at = index_of_id(before, id);
    lemma_row_is_found(before, at);
    lemma_update_keeps_consistent(before, at, after[at]);
    lemma_row_is_found(after, at);
}

} // verus!
