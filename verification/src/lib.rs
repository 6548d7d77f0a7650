//! Verified core of a small user-resource CRUD service: a table-driven field
//! validation engine and a SQL statement builder, with the surrounding I/O
//! (HTTP routing, the database connection, logging output) kept outside the
//! verified library.

pub mod factory;
pub mod messages;
pub mod observer;
pub mod schema;
pub mod patterns;
pub mod text;
pub mod user_service;
pub mod user_validator;
pub mod validation_chain;
