//! The bodies that requests bring and responses carry.

pub mod create_user_request;
pub mod create_user_response;
pub mod find_all_user_response;
pub mod find_user_by_id_request;
pub mod find_user_by_id_response;
