//! The errors of the user stores.

use vstd::prelude::*;

verus! {

/// Why a repository refused an operation.
#[derive(Debug)]
pub enum UserRepositoryError {
    /// No row has the identifier that was asked for.
    NotFound,
    /// The store failed; the text says how.
    Storage(String),
}

/// Why the check of an email against the stored users did not pass.
#[derive(Debug)]
pub enum UserEmailDuplicateValidationError {
    /// A stored user has this email already.
    AlreadyExists,
    /// The store failed while it was asked; the text says how.
    Unexpected(String),
}

impl UserRepositoryError {
    /// The text shown for this error.
    pub open spec fn message_spec(self) -> Seq<char> {
        match self {
            UserRepositoryError::NotFound => "User not found"@,
            UserRepositoryError::Storage(text) => text@,
        }
    }

    /// The text shown for this error.
    pub fn message(&self) -> (text: String)
        ensures
            text@ == self.message_spec(),
    {
        match self {
            UserRepositoryError::NotFound => String::from_str("User not found"),
            UserRepositoryError::Storage(text) => text.clone(),
        }
    }
}

impl UserEmailDuplicateValidationError {
    /// The text shown for this error.
    pub open spec fn message_spec(self) -> Seq<char> {
        match self {
            UserEmailDuplicateValidationError::AlreadyExists => "User email already exists"@,
            UserEmailDuplicateValidationError::Unexpected(text) => "Unexpected error: "@ + text@,
        }
    }

    /// The text shown for this error.
    pub fn message(&self) -> (text: String)
        ensures
            text@ == self.message_spec(),
    {
        match self {
            UserEmailDuplicateValidationError::AlreadyExists => String::from_str(
                "User email already exists",
            ),
            UserEmailDuplicateValidationError::Unexpected(text) => String::from_str(
                "Unexpected error: ",
            ).concat(text.as_str()),
        }
    }
}

} // verus!
