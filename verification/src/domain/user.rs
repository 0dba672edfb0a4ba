//! The user entity.

use vstd::prelude::*;
use vstd::std_specs::cmp::PartialEqSpecImpl;

use crate::domain::user_id::is_random_layout;
use crate::domain::user_id::UserId;

verus! {

/// A person known to the service. The identifier is given once, when the user
/// is made, and never changes; name and email are plain text.
#[derive(Debug)]
pub struct User {
    pub id: UserId,
    pub name: String,
    pub email: String,
}

/// What a user is, apart from how its text is stored.
pub struct UserView {
    pub id: UserId,
    pub name: Seq<char>,
    pub email: Seq<char>,
}

impl View for User {
    type V = UserView;

    open spec fn view(&self) -> UserView {
        UserView { id: self.id, name: self.name@, email: self.email@ }
    }
}

impl User {
    /// A user with the given name and email and a fresh random identifier.
    pub fn new(name: String, email: String) -> (user: Self)
        ensures
            user.name == name,
            user.email == email,
            is_random_layout(user.id.0),
    {
        let id = UserId::new();
        User { id, name, email }
    }
}

impl Clone for User {
    fn clone(&self) -> (copy: Self)
        ensures
            copy == *self,
    {
        User { id: self.id, name: self.name.clone(), email: self.email.clone() }
    }
}

impl PartialEq for User {
    fn eq(&self, other: &Self) -> (equal: bool) {
        self.id == other.id && self.name == other.name && self.email == other.email
    }
}

impl PartialEqSpecImpl for User {
    open spec fn obeys_eq_spec() -> bool {
        true
    }

    open spec fn eq_spec(&self, other: &Self) -> bool {
        self@ == other@
    }
}

} // verus!
