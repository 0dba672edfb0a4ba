//! The user entity, its identifier, the errors of its stores and the store
//! interfaces.

pub mod user;
pub mod user_email_duplicate_validator_interface;
pub mod user_error;
pub mod user_id;
pub mod user_repository_interface;
