//! Registration and the list of users, as the HTTP layer asks for them.

use vstd::prelude::*;
use vstd::string::StringExecFns;
use crate::error::RepoError;
use crate::model_response::ModelResponse;
use crate::models::{User, UserResponse, UserResponseView};
use crate::register_models::{
    RegistrationStatus, UserRegister, UserRegistrationResponse, UserRegistrationResponseView,
};
use crate::store::UserStore;
use crate::table::consistent;
use crate::user_repository::{create_user_outcome, shown, UserRepository};

verus! {

/// The status and the body that answer a registration, given what
/// `create_user` said: `Created` with the new user, or `BadRequest` with the
/// reason. No token is issued either way.
pub open spec fn registration_reply(answer: Result<UserResponseView, RepoError>) -> (
    RegistrationStatus,
    UserRegistrationResponseView,
) {
    match answer {
        Ok(user) => (
            RegistrationStatus::Created,
            UserRegistrationResponseView {
                token: None,
                message: "Usuário criado com sucesso!"@,
                user: Some(user),
            },
        ),
        Err(e) => (
            RegistrationStatus::BadRequest,
            UserRegistrationResponseView {
                token: None,
                message: "Erro ao criar usuário: "@ + e.message_text(),
                user: None,
            },
        ),
    }
}

/// Builds the answer to a registration from what `create_user` said.
pub fn registration_response(answer: Result<UserResponse, RepoError>) -> (reply: (
    RegistrationStatus,
    UserRegistrationResponse,
))
    ensures
        (reply.0, reply.1@) == registration_reply(shown(answer)),
{
    match answer {
        Ok(created_user) => (
            RegistrationStatus::Created,
            UserRegistrationResponse {
                token: None,
                message: String::from_str("Usuário criado com sucesso!"),
                user: Some(created_user),
            },
        ),
        Err(e) => {
            let reason = e.message();
            (
                RegistrationStatus::BadRequest,
                UserRegistrationResponse {
                    token: None,
                    message: String::from_str("Erro ao criar usuário: ").concat(reason.as_str()),
                    user: None,
                },
            )
        },
    }
}

/// Registers the user of a submitted form: creates it in `repository` and
/// answers with `registration_reply` of what `create_user` said.
pub fn register<R: UserRepository>(user: &UserRegister<'_>, repository: &mut R) -> (reply: (
    RegistrationStatus,
    UserRegistrationResponse,
))
    ensures
        consistent(final(repository).rows()),
        exists|answer: Result<UserResponseView, RepoError>|
            create_user_outcome(old(repository).rows(), user@, answer, final(repository).rows())
                && (reply.0, reply.1@) == #[trigger] registration_reply(answer),
{
    let answer = repository.create_user(user.to_new_user());
    let reply = registration_response(answer);
    assert((reply.0, reply.1@) == registration_reply(shown(answer)));
    reply
}

/// The responses for the given rows, in their order.
pub fn to_responses(rows: &Vec<User>) -> (user_responses: Vec<UserResponse>)
    ensures
        user_responses@.len() == rows@.len(),
        forall|i: int|
            0 <= i < rows@.len() ==> (#[trigger] user_responses@[i])@ == rows@[i]@.shaped(),
{
    let mut user_responses: Vec<UserResponse> = Vec::new();
    let mut i: usize = 0;
    while i < rows.len()
        invariant
            i <= rows.len(),
            user_responses@.len() == i,
            forall|k: int| 0 <= k < i ==> (#[trigger] user_responses@[k])@ == rows@[k]@.shaped(),
        decreases rows.len() - i,
    {
        user_responses.push(rows[i].to_response());
        i += 1;
    }
    user_responses
}

/// The responses for all users of the table, oldest first.
pub fn get_users(store: &UserStore) -> (user_responses: Vec<UserResponse>)
    ensures
        user_responses@.len() == store@.len(),
        forall|i: int|
            0 <= i < store@.len() ==> (#[trigger] user_responses@[i])@ == store@[i].shaped(),
{
    let results = store.rows();
    assert forall|i: int| 0 <= i < store@.len() implies results@[i]@ == #[trigger] store@[i] by {
        assert(results@.map_values(|u: User| u@)[i] == results@[i]@);
    }
    to_responses(results)
}

} // verus!
