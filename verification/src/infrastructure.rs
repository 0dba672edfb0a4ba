//! The shapes in which users are stored, and a store that keeps its rows in
//! memory.

pub mod model;
pub mod repository;
