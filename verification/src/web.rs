//! The HTTP side: problem details, the handlers of the routes and the stage
//! that turns every failing status into a problem.

pub mod app;
pub mod handler;
pub mod laws;
pub mod problem;
pub mod problem_type;
