//! Request-independent logic of a small todo web service: configuration
//! parsing, input validation, the mapping of errors to HTTP responses,
//! health reporting, CORS and request-id decisions, with their contracts.

pub mod config;
pub mod db;
pub mod error;
pub mod health;
pub mod telemetry;
pub mod text;
pub mod todos;
