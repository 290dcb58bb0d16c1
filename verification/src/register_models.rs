//! What a registration takes in and what it answers.

use vstd::prelude::*;
use crate::models::{NewUser, NewUserView, UserResponse, UserResponseView};

verus! {

/// A registration form as it was submitted. The password is the one that
/// was typed.
#[derive(Debug, Clone, Copy, PartialEq, Eq)]
pub struct UserRegister<'r> {
    pub email: &'r str,
    pub password: &'r str,
    pub name: &'r str,
}

impl<'r> View for UserRegister<'r> {
    type V = NewUserView;

    open spec fn view(&self) -> NewUserView {
        NewUserView { email: self.email@, password_hash: self.password@, name: self.name@ }
    }
}

impl<'r> UserRegister<'r> {
    /// The request that `create_user` takes for this form.
    pub fn to_new_user(&self) -> (request: NewUser)
        ensures
            request@ == self@,
    {
        NewUser {
            email: self.email.to_owned(),
            password_hash: self.password.to_owned(),
            name: self.name.to_owned(),
        }
    }
}

/// The body of the answer to a registration.
#[derive(Debug, PartialEq, Eq)]
pub struct UserRegistrationResponse {
    pub token: Option<String>,
    pub message: String,
    pub user: Option<UserResponse>,
}

/// What a `UserRegistrationResponse` is to a contract.
pub struct UserRegistrationResponseView {
    pub token: Option<Seq<char>>,
    pub message: Seq<char>,
    pub user: Option<UserResponseView>,
}

impl View for UserRegistrationResponse {
    type V = UserRegistrationResponseView;

    open spec fn view(&self) -> UserRegistrationResponseView {
        UserRegistrationResponseView {
            token: match self.token {
                Some(token) => Some(token@),
                None => None,
            },
            message: self.message@,
            user: match self.user {
                Some(user) => Some(user@),
                None => None,
            },
        }
    }
}

/// How a registration ended.
#[derive(Debug, Clone, Copy, PartialEq, Eq, Structural)]
pub enum RegistrationStatus {
    Created,
    BadRequest,
}

impl RegistrationStatus {
    /// The HTTP status code: 201 or 400.
    pub fn code(&self) -> (code: u16)
        ensures
            code == match self {
                RegistrationStatus::Created => 201u16,
                RegistrationStatus::BadRequest => 400u16,
            },
    {
        match self {
            RegistrationStatus::Created => 201,
            RegistrationStatus::BadRequest => 400,
        }
    }
}

} // verus!
