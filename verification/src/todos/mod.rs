//! Todos: their data, the checks a request passes before it reaches the
//! database, and what a database outcome means for the request.

pub mod model;
pub mod repo;
