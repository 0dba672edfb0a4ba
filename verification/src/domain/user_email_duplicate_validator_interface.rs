//! The check that an email is not taken yet.

use vstd::prelude::*;

use crate::domain::user_error::UserEmailDuplicateValidationError;
use crate::domain::user_repository_interface::has_email;
use crate::domain::user_repository_interface::UserRepositoryInterface;

verus! {

/// What the answer of the store to "does a row with this email exist?" means
/// for the check.
pub fn existence_verdict(is_exist: bool) -> (result: Result<(), UserEmailDuplicateValidationError>)
    ensures
        is_exist ==> result == Err::<(), UserEmailDuplicateValidationError>(
            UserEmailDuplicateValidationError::AlreadyExists,
        ),
        !is_exist ==> result is Ok,
{
    if is_exist {
        return Err(UserEmailDuplicateValidationError::AlreadyExists);
    }
    Ok(())
}

/// Asks a store whether an email is taken.
///
/// The rows that the answer speaks of are those of the repository that the
/// check is made against. The check comes before the insert and the two are
/// not one step: where several writers share the store, only a uniqueness
/// constraint in the store itself settles which of them wins.
pub trait UserEmailDuplicateValidatorInterface<T: UserRepositoryInterface>: Sized {
    /// Whether the check can answer otherwise than the rows say. A validator
    /// says that it cannot by giving this a body of its own.
    open spec fn may_fault(&self) -> bool {
        true
    }

    /// `Ok` where no row of `repository` has the email, `AlreadyExists` where
    /// one has. Neither is promised of a check that may fault, nor of a check
    /// against a repository that may.
    fn validate_user_email_duplicate(&self, repository: &T, email: &str) -> (result: Result<
        (),
        UserEmailDuplicateValidationError,
    >)
        ensures
            !self.may_fault() && !repository.may_fault() ==> match result {
                Ok(_) => !has_email(repository.rows(), email@),
                Err(error) => error is AlreadyExists && has_email(repository.rows(), email@),
            },
    ;
}

} // verus!
