//! The use case that finds one user.

use vstd::prelude::*;

use crate::domain::user::User;
use crate::domain::user_error::UserRepositoryError;
use crate::domain::user_id::UserId;
use crate::domain::user_repository_interface::first_with_id;
use crate::domain::user_repository_interface::has_id;
use crate::domain::user_repository_interface::UserRepositoryInterface;

verus! {

pub type FindUserByIdInput = UserId;

pub type FindUserByIdOutput = User;

/// Finds a user of a repository by identifier.
pub struct FindUserByIdUsecase<T> where T: UserRepositoryInterface {
    user_repository: T,
}

impl<T> FindUserByIdUsecase<T> where T: UserRepositoryInterface {
    /// The repository that the use case reads.
    pub closed spec fn repository(&self) -> T {
        self.user_repository
    }

    pub fn new(user_repository: T) -> (usecase: Self)
        ensures
            usecase.repository() == user_repository,
    {
        FindUserByIdUsecase { user_repository }
    }

    /// Hands the repository back.
    pub fn into_repository(self) -> (user_repository: T)
        ensures
            user_repository == self.repository(),
    {
        self.user_repository
    }

    /// The user with the given identifier. What the repository answers is
    /// passed on unchanged, `NotFound` included.
    pub fn execute(&self, find_user_by_id_input: FindUserByIdInput) -> (result: Result<
        FindUserByIdOutput,
        UserRepositoryError,
    >)
        ensures
            !self.repository().may_fault() ==> match result {
                Ok(user) => has_id(self.repository().rows(), find_user_by_id_input) && user@
                    == first_with_id(self.repository().rows(), find_user_by_id_input),
                Err(error) => error is NotFound && !has_id(
                    self.repository().rows(),
                    find_user_by_id_input,
                ),
            },
    {
        let user = self.user_repository.find_by_id(&find_user_by_id_input)?;
        Ok(user)
    }
}

} // verus!
