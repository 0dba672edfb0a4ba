//! One use case for each thing the service does with users.

pub mod create_user;
pub mod find_all_user;
pub mod find_user_by_id;
