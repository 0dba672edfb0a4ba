//! The use cases and the bodies of their requests and responses.

pub mod request_response;
pub mod usecase;
