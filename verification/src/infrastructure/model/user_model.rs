//! The row of the `user` table and its conversions to and from the entity.

use vstd::prelude::*;
use vstd::std_specs::convert::FromSpecImpl;

use crate::domain::user::User;
use crate::domain::user_id::UserId;

verus! {

/// A row of the `user` table: the 128 bits of the identifier, which is the
/// key, then name and email.
#[derive(Debug)]
pub struct UserModel {
    pub id: u128,
    pub name: String,
    pub email: String,
}

/// The user that a row stands for.
pub open spec fn user_of_row(model: UserModel) -> User {
    User { id: UserId(model.id), name: model.name, email: model.email }
}

/// The row that stands for a user.
pub open spec fn row_of_user(user: User) -> UserModel {
    UserModel { id: user.id.0, name: user.name, email: user.email }
}

impl From<UserModel> for User {
    fn from(model: UserModel) -> (user: Self) {
        User { id: UserId(model.id), name: model.name, email: model.email }
    }
}

impl FromSpecImpl<UserModel> for User {
    open spec fn obeys_from_spec() -> bool {
        true
    }

    open spec fn from_spec(model: UserModel) -> Self {
        user_of_row(model)
    }
}

impl From<User> for UserModel {
    fn from(user: User) -> (model: Self) {
        UserModel { id: user.id.0, name: user.name, email: user.email }
    }
}

impl FromSpecImpl<User> for UserModel {
    open spec fn obeys_from_spec() -> bool {
        true
    }

    open spec fn from_spec(user: User) -> Self {
        row_of_user(user)
    }
}

/// A user that is turned into a row and back is the same user: identifier,
/// name and email are kept exactly.
pub proof fn lemma_user_survives_storage(user: User)
    ensures
        user_of_row(row_of_user(user)) == user,
{
}

/// A row that is turned into a user and back is the same row.
pub proof fn lemma_row_survives_entity(model: UserModel)
    ensures
        row_of_user(user_of_row(model)) == model,
{
}

/// The users that the rows of a query stand for, in the order of the rows.
pub fn users_from_rows(rows: Vec<UserModel>) -> (users: Vec<User>)
    ensures
        users.len() == rows.len(),
        forall|i: int| 0 <= i < rows.len() ==> #[trigger] users[i] == user_of_row(rows[i]),
{
    let mut users: Vec<User> = Vec::new();
    for model in rest: rows
        invariant
            rest.seq() == rows@,
            users.len() == rest.index(),
            forall|i: int| 0 <= i < users.len() ==> #[trigger] users[i] == user_of_row(rows[i]),
    {
        users.push(User::from(model));
    }
    users
}

} // verus!
