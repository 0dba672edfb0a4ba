//! The body of the answer to a request for all users.

use vstd::prelude::*;
use vstd::std_specs::convert::FromSpecImpl;

use crate::application::request_response::create_user_response::shown;
use crate::application::request_response::create_user_response::ShownUser;
use crate::application::usecase::find_all_user::FindAllUserOutput;
use crate::domain::user::User;
use crate::domain::user::UserView;
use crate::domain::user_id::UserId;

verus! {

/// One user of the list, as the service shows it.
#[derive(Debug)]
pub struct FindAllUserResponseBodyItem {
    pub id: String,
    pub name: String,
    pub email: String,
}

impl View for FindAllUserResponseBodyItem {
    type V = ShownUser;

    open spec fn view(&self) -> ShownUser {
        ShownUser { id: self.id@, name: self.name@, email: self.email@ }
    }
}

impl From<User> for FindAllUserResponseBodyItem {
    fn from(user: User) -> (item: Self)
        ensures
            item@ == shown(user@),
            UserId::parsed(item@.id) == Some(user.id),
    {
        FindAllUserResponseBodyItem { id: user.id.to_string(), name: user.name, email: user.email }
    }
}

impl FromSpecImpl<User> for FindAllUserResponseBodyItem {
    /// The identifier's text is written by the conversion, so its result is
    /// stated by the conversion's own contract and not as a value.
    open spec fn obeys_from_spec() -> bool {
        false
    }

    open spec fn from_spec(user: User) -> Self {
        arbitrary()
    }
}

/// The list of all users, each as the service shows it, in the order in which
/// the use case gave them.
#[derive(Debug)]
pub struct FindAllUserResponseBody(pub Vec<FindAllUserResponseBodyItem>);

/// How a list of users is shown: user by user, in the same order.
pub open spec fn shown_all(users: Seq<UserView>) -> Seq<ShownUser> {
    users.map_values(|user: UserView| shown(user))
}

impl View for FindAllUserResponseBody {
    type V = Seq<ShownUser>;

    open spec fn view(&self) -> Seq<ShownUser> {
        self.0@.map_values(|item: FindAllUserResponseBodyItem| item@)
    }
}

impl From<FindAllUserOutput> for FindAllUserResponseBody {
    fn from(output: FindAllUserOutput) -> (body: Self)
        ensures
            body@ == shown_all(output@),
    {
        let users = output.0;
        let mut items: Vec<FindAllUserResponseBodyItem> = Vec::new();
        let mut index: usize = 0;
        while index < users.len()
            invariant
                index <= users.len(),
                items.len() == index,
                forall|i: int| 0 <= i < index ==> (#[trigger] items[i])@ == shown(users[i]@),
            decreases users.len() - index,
        {
            items.push(FindAllUserResponseBodyItem::from(users[index].clone()));
            index = index + 1;
        }
        let body = FindAllUserResponseBody(items);
        assert(body@ =~= shown_all(output@));
        body
    }
}

impl FromSpecImpl<FindAllUserOutput> for FindAllUserResponseBody {
    /// The identifiers' texts are written by the conversion, so its result is
    /// stated by the conversion's own contract and not as a value.
    open spec fn obeys_from_spec() -> bool {
        false
    }

    open spec fn from_spec(output: FindAllUserOutput) -> Self {
        arbitrary()
    }
}

} // verus!
