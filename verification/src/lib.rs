//! Verified record stores: an in-memory store of users and posts with
//! paginated queries, and a todo list with sequential identifiers.

pub mod clock;
pub mod rest_api;
pub mod text;
pub mod todo_cli;
