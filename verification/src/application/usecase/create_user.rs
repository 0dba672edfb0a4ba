//! The use case that creates a user, and the one rule it enforces: no two
//! users share an email.

use vstd::prelude::*;

use crate::domain::user::User;
use crate::domain::user::UserView;
use crate::domain::user_email_duplicate_validator_interface::UserEmailDuplicateValidatorInterface;
use crate::domain::user_error::UserEmailDuplicateValidationError;
use crate::domain::user_error::UserRepositoryError;
use crate::domain::user_id::is_random_layout;
use crate::domain::user_id::UserId;
use crate::domain::user_repository_interface::has_email;
use crate::domain::user_repository_interface::has_id;
use crate::domain::user_repository_interface::UserRepositoryInterface;

verus! {

/// The name and email of the user to create, already held to the rules of the
/// request body.
#[derive(Debug)]
pub struct CreateUserInput {
    pub name: String,
    pub email: String,
}

impl CreateUserInput {
    pub fn new(name: String, email: String) -> (input: Self)
        ensures
            input.name == name,
            input.email == email,
    {
        CreateUserInput { name, email }
    }
}

pub type CreateUserOutput = User;

/// Why no user was created.
#[derive(Debug)]
pub enum CreateUserError {
    /// A stored user has the email already.
    DuplicateEmail,
    /// The check of the email or the insert failed; the text says how.
    Storage(String),
}

/// What the check of the email means for the use case: go on, stop because
/// the email is taken, or stop because the check itself failed.
pub fn email_check_verdict(
    check: Result<(), UserEmailDuplicateValidationError>,
) -> (verdict: Result<(), CreateUserError>)
    ensures
        match check {
            Ok(_) => verdict is Ok,
            Err(UserEmailDuplicateValidationError::AlreadyExists) => verdict == Err::<
                (),
                CreateUserError,
            >(CreateUserError::DuplicateEmail),
            Err(error) => verdict matches Err(CreateUserError::Storage(text)) && text@
                == error.message_spec(),
        },
{
    match check {
        Ok(_) => Ok(()),
        Err(UserEmailDuplicateValidationError::AlreadyExists) => Err(
            CreateUserError::DuplicateEmail,
        ),
        Err(error) => Err(CreateUserError::Storage(error.message())),
    }
}

/// What the insert means for the use case: the user as the repository
/// stored it where the insert succeeded, a storage error with the
/// repository's words where it did not.
pub fn insert_verdict(insert: Result<User, UserRepositoryError>) -> (verdict: Result<
    CreateUserOutput,
    CreateUserError,
>)
    ensures
        match insert {
            Ok(persisted) => verdict == Ok::<User, CreateUserError>(persisted),
            Err(error) => verdict matches Err(CreateUserError::Storage(text)) && text@
                == error.message_spec(),
        },
{
    match insert {
        Ok(persisted) => Ok(persisted),
        Err(error) => Err(CreateUserError::Storage(error.message())),
    }
}

/// How the outcome of creating `user` hangs together with the rows before and
/// after it, for a use case whose validator and repository may fault as
/// `validator_faults` and `repository_faults` say.
///
/// Whatever the stores do, an email that is reported taken leaves the rows
/// alone. Stores that cannot fault settle the rest. The user is created
/// exactly where neither its email nor its identifier is stored: it is then
/// the result, and the one row that is added. An email that is stored gives
/// `DuplicateEmail`, and an identifier that is stored beside a free email
/// gives a storage error; both leave the rows as they were.
pub open spec fn create_user_outcome(
    rows: Seq<UserView>,
    validator_faults: bool,
    repository_faults: bool,
    user: UserView,
    rows_after: Seq<UserView>,
    result: Result<CreateUserOutput, CreateUserError>,
) -> bool {
    match result {
        Ok(persisted) => {
            &&& !validator_faults && !repository_faults ==> !has_email(rows, user.email)
            &&& !repository_faults ==> {
                &&& persisted@ == user
                &&& !has_id(rows, user.id)
                &&& rows_after == rows.push(user)
            }
        },
        Err(CreateUserError::DuplicateEmail) => {
            &&& rows_after == rows
            &&& !validator_faults && !repository_faults ==> has_email(rows, user.email)
        },
        Err(CreateUserError::Storage(_)) => {
            &&& !repository_faults ==> rows_after == rows
            &&& !validator_faults && !repository_faults ==> !has_email(rows, user.email)
                && has_id(rows, user.id)
        },
    }
}

/// Whether some random identifier is the identifier of a row. Only then can a
/// repository that cannot fault refuse a user with a fresh identifier.
pub open spec fn identifier_taken(rows: Seq<UserView>) -> bool {
    exists|id: UserId| is_random_layout(id.0) && #[trigger] has_id(rows, id)
}

/// Creates users in a repository, after a validator has found the email free.
pub struct CreateUserUsecase<T, U> where
    T: UserRepositoryInterface,
    U: UserEmailDuplicateValidatorInterface<T>,
 {
    user_repository: T,
    user_email_duplicate_validator: U,
}

impl<T, U> CreateUserUsecase<T, U> where
    T: UserRepositoryInterface,
    U: UserEmailDuplicateValidatorInterface<T>,
 {
    /// The repository that the use case writes to.
    pub closed spec fn repository(&self) -> T {
        self.user_repository
    }

    /// The validator that the use case asks.
    pub closed spec fn validator(&self) -> U {
        self.user_email_duplicate_validator
    }

    pub fn new(user_repository: T, user_email_duplicate_validator: U) -> (usecase: Self)
        ensures
            usecase.repository() == user_repository,
            usecase.validator() == user_email_duplicate_validator,
    {
        CreateUserUsecase { user_repository, user_email_duplicate_validator }
    }

    /// Hands the repository and the validator back.
    pub fn into_parts(self) -> (parts: (T, U))
        ensures
            parts.0 == self.repository(),
            parts.1 == self.validator(),
    {
        (self.user_repository, self.user_email_duplicate_validator)
    }

    /// Asks the validator whether the email of `user` is free, and only then
    /// hands the user to the repository. The result is the user as the
    /// repository stored it.
    ///
    /// Where the email is taken the repository is not touched. With stores
    /// that cannot fault the user is created if and only if neither its email
    /// nor its identifier is stored.
    pub fn execute_with_user(&mut self, user: User) -> (result: Result<
        CreateUserOutput,
        CreateUserError,
    >)
        ensures
            final(self).validator() == old(self).validator(),
            final(self).repository().may_fault() == old(self).repository().may_fault(),
            result matches Err(CreateUserError::DuplicateEmail) ==> final(self).repository()
                == old(self).repository(),
            create_user_outcome(
                old(self).repository().rows(),
                old(self).validator().may_fault(),
                old(self).repository().may_fault(),
                user@,
                final(self).repository().rows(),
                result,
            ),
            !old(self).validator().may_fault() && !old(self).repository().may_fault() ==> {
                &&& result is Ok <==> !has_email(old(self).repository().rows(), user.email@)
                    && !has_id(old(self).repository().rows(), user.id)
                &&& (result matches Err(CreateUserError::DuplicateEmail)) <==> has_email(
                    old(self).repository().rows(),
                    user.email@,
                )
            },
    {
        let check = self.user_email_duplicate_validator.validate_user_email_duplicate(
            &self.user_repository,
            user.email.as_str(),
        );
        match email_check_verdict(check) {
            Err(error) => Err(error),
            Ok(_) => insert_verdict(self.user_repository.create(&user)),
        }
    }

    /// Makes a user with the name and email of the input and a fresh random
    /// identifier, and creates it as `execute_with_user` does.
    pub fn execute(&mut self, create_user_input: CreateUserInput) -> (result: Result<
        CreateUserOutput,
        CreateUserError,
    >)
        ensures
            final(self).validator() == old(self).validator(),
            final(self).repository().may_fault() == old(self).repository().may_fault(),
            result matches Err(CreateUserError::DuplicateEmail) ==> final(self).repository()
                == old(self).repository(),
            exists|id: UserId|
                {
                    &&& #[trigger] is_random_layout(id.0)
                    &&& create_user_outcome(
                        old(self).repository().rows(),
                        old(self).validator().may_fault(),
                        old(self).repository().may_fault(),
                        UserView {
                            id,
                            name: create_user_input.name@,
                            email: create_user_input.email@,
                        },
                        final(self).repository().rows(),
                        result,
                    )
                },
    {
        let user = User::new(create_user_input.name, create_user_input.email);
        assert(is_random_layout(user.id.0));
        self.execute_with_user(user)
    }
}

} // verus!
