//! A repository and an email check that work on rows held in memory.

pub mod user_email_duplicate_validator_in_memory;
pub mod user_repository_in_memory;
