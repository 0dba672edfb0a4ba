//! A small user directory: the rules for accepting a new user, the use cases
//! that create and look up users through a repository, and the turning of
//! every outcome into an HTTP status with a problem-details body.

pub mod application;
pub mod domain;
pub mod infrastructure;
pub mod web;
