//! The use case that lists all users.

use vstd::prelude::*;
use vstd::std_specs::cmp::PartialEqSpecImpl;

use crate::domain::user::User;
use crate::domain::user::UserView;
use crate::domain::user_error::UserRepositoryError;
use crate::domain::user_repository_interface::is_listing_by_name;
use crate::domain::user_repository_interface::user_views;
use crate::domain::user_repository_interface::UserRepositoryInterface;

verus! {

/// All users, ordered by name.
#[derive(Debug)]
pub struct FindAllUserOutput(pub Vec<User>);

impl View for FindAllUserOutput {
    type V = Seq<UserView>;

    open spec fn view(&self) -> Seq<UserView> {
        user_views(self.0@)
    }
}

impl Clone for FindAllUserOutput {
    fn clone(&self) -> (copy: Self)
        ensures
            copy@ == self@,
    {
        let mut users: Vec<User> = Vec::new();
        let mut index: usize = 0;
        while index < self.0.len()
            invariant
                index <= self.0.len(),
                users.len() == index,
                forall|i: int| 0 <= i < index ==> #[trigger] users[i] == self.0[i],
            decreases self.0.len() - index,
        {
            users.push(self.0[index].clone());
            index = index + 1;
        }
        let copy = FindAllUserOutput(users);
        assert(copy@ =~= self@);
        copy
    }
}

impl PartialEq for FindAllUserOutput {
    fn eq(&self, other: &Self) -> (equal: bool) {
        if self.0.len() != other.0.len() {
            assert(self@.len() != other@.len());
            return false;
        }
        let mut index: usize = 0;
        while index < self.0.len()
            invariant
                index <= self.0.len(),
                self.0.len() == other.0.len(),
                forall|i: int| 0 <= i < index ==> (#[trigger] self.0[i])@ == other.0[i]@,
            decreases self.0.len() - index,
        {
            if self.0[index] != other.0[index] {
                assert(self@[index as int] != other@[index as int]);
                return false;
            }
            index = index + 1;
        }
        assert(self@ =~= other@);
        true
    }
}

impl PartialEqSpecImpl for FindAllUserOutput {
    open spec fn obeys_eq_spec() -> bool {
        true
    }

    open spec fn eq_spec(&self, other: &Self) -> bool {
        self@ == other@
    }
}

/// Lists the users of a repository.
pub struct FindAllUserUsecase<T> where T: UserRepositoryInterface {
    user_repository: T,
}

impl<T> FindAllUserUsecase<T> where T: UserRepositoryInterface {
    /// The repository that the use case reads.
    pub closed spec fn repository(&self) -> T {
        self.user_repository
    }

    pub fn new(user_repository: T) -> (usecase: Self)
        ensures
            usecase.repository() == user_repository,
    {
        FindAllUserUsecase { user_repository }
    }

    /// Hands the repository back.
    pub fn into_repository(self) -> (user_repository: T)
        ensures
            user_repository == self.repository(),
    {
        self.user_repository
    }

    /// All users of the repository, ordered by name. Fails only where the
    /// repository does, which a repository that cannot fault never does.
    pub fn execute(&self) -> (result: Result<FindAllUserOutput, UserRepositoryError>)
        ensures
            !self.repository().may_fault() ==> (result matches Ok(output) && is_listing_by_name(
                self.repository().rows(),
                output@,
            )),
    {
        let users = self.user_repository.find_all()?;
        Ok(FindAllUserOutput(users))
    }
}

} // verus!
