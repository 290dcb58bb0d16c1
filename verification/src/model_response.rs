//! The one place where a stored entity is turned into what may be shown.

use vstd::prelude::*;
use crate::models::{User, UserResponse, UserResponseView};

verus! {

/// A stored entity that has a public representation.
pub trait ModelResponse {
    /// The type that callers outside the access layer get to see.
    type Response: View;

    /// What the public representation of this entity holds.
    spec fn response_view(&self) -> <Self::Response as View>::V;

    /// Builds the public representation.
    fn to_response(&self) -> (response: Self::Response)
        ensures
            response@ == self.response_view(),
    ;
}

impl ModelResponse for User {
    type Response = UserResponse;

    open spec fn response_view(&self) -> UserResponseView {
        self@.shaped()
    }

    fn to_response(&self) -> (response: UserResponse) {
        UserResponse {
            id: self.id,
            email: self.email.clone(),
            name: self.name.clone(),
            created_at: self.created_at,
        }
    }
}

} // verus!
