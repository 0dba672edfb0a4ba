//! The body of the answer to a created user.

use vstd::prelude::*;
use vstd::std_specs::convert::FromSpecImpl;

use crate::application::usecase::create_user::CreateUserOutput;
use crate::domain::user::UserView;
use crate::domain::user_id::UserId;

verus! {

/// A user as the service shows it: the identifier in its canonical text, then
/// name and email.
#[derive(Debug)]
pub struct CreateUserResponseBody {
    pub id: String,
    pub name: String,
    pub email: String,
}

/// What a shown user is.
pub struct ShownUser {
    pub id: Seq<char>,
    pub name: Seq<char>,
    pub email: Seq<char>,
}

/// How a user is shown.
pub open spec fn shown(user: UserView) -> ShownUser {
    ShownUser { id: user.id.text(), name: user.name, email: user.email }
}

impl View for CreateUserResponseBody {
    type V = ShownUser;

    open spec fn view(&self) -> ShownUser {
        ShownUser { id: self.id@, name: self.name@, email: self.email@ }
    }
}

impl From<CreateUserOutput> for CreateUserResponseBody {
    fn from(create_user_output: CreateUserOutput) -> (body: Self)
        ensures
            body@ == shown(create_user_output@),
            UserId::parsed(body@.id) == Some(create_user_output.id),
    {
        CreateUserResponseBody {
            id: create_user_output.id.to_string(),
            name: create_user_output.name,
            email: create_user_output.email,
        }
    }
}

impl FromSpecImpl<CreateUserOutput> for CreateUserResponseBody {
    /// The identifier's text is written by the conversion, so its result is
    /// stated by the conversion's own contract and not as a value.
    open spec fn obeys_from_spec() -> bool {
        false
    }

    open spec fn from_spec(create_user_output: CreateUserOutput) -> Self {
        arbitrary()
    }
}

} // verus!
