//! The body of the answer to a user asked for by identifier.

use vstd::prelude::*;
use vstd::std_specs::convert::FromSpecImpl;

use crate::application::request_response::create_user_response::shown;
use crate::application::request_response::create_user_response::ShownUser;
use crate::application::usecase::find_user_by_id::FindUserByIdOutput;
use crate::domain::user_id::UserId;

verus! {

/// The user that was found, as the service shows it.
#[derive(Debug)]
pub struct FindUserByIdResponseBody {
    pub id: String,
    pub name: String,
    pub email: String,
}

impl View for FindUserByIdResponseBody {
    type V = ShownUser;

    open spec fn view(&self) -> ShownUser {
        ShownUser { id: self.id@, name: self.name@, email: self.email@ }
    }
}

impl From<FindUserByIdOutput> for FindUserByIdResponseBody {
    fn from(find_user_by_id_output: FindUserByIdOutput) -> (body: Self)
        ensures
            body@ == shown(find_user_by_id_output@),
            UserId::parsed(body@.id) == Some(find_user_by_id_output.id),
    {
        FindUserByIdResponseBody {
            id: find_user_by_id_output.id.to_string(),
            name: find_user_by_id_output.name,
            email: find_user_by_id_output.email,
        }
    }
}

impl FromSpecImpl<FindUserByIdOutput> for FindUserByIdResponseBody {
    /// The identifier's text is written by the conversion, so its result is
    /// stated by the conversion's own contract and not as a value.
    open spec fn obeys_from_spec() -> bool {
        false
    }

    open spec fn from_spec(find_user_by_id_output: FindUserByIdOutput) -> Self {
        arbitrary()
    }
}

} // verus!
