//! The email check against a repository in memory.

use vstd::prelude::*;

use crate::domain::user_email_duplicate_validator_interface::existence_verdict;
use crate::domain::user_email_duplicate_validator_interface::UserEmailDuplicateValidatorInterface;
use crate::domain::user_error::UserEmailDuplicateValidationError;
use crate::domain::user_repository_interface::has_email;
use crate::domain::user_repository_interface::UserRepositoryInterface;
use crate::infrastructure::repository::user_repository_in_memory::UserRepositoryInMemory;

verus! {

/// Looks the email up among the rows of the repository. It never faults.
#[derive(Debug, Clone, Copy)]
pub struct UserEmailDuplicateValidatorInMemory;

impl UserEmailDuplicateValidatorInMemory {
    pub fn new() -> (validator: Self)
        ensures
            !validator.may_fault(),
    {
        UserEmailDuplicateValidatorInMemory
    }
}

impl UserEmailDuplicateValidatorInterface<
    UserRepositoryInMemory,
> for UserEmailDuplicateValidatorInMemory {
    open spec fn may_fault(&self) -> bool {
        false
    }

    fn validate_user_email_duplicate(
        &self,
        repository: &UserRepositoryInMemory,
        email: &str,
    ) -> (result: Result<(), UserEmailDuplicateValidationError>)
        ensures
            result is Ok <==> !has_email(repository.rows(), email@),
    {
        existence_verdict(repository.contains_email(email))
    }
}

} // verus!
