//! Users as rows of the store.

pub mod user_model;
