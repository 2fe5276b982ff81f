//! A todo list with sequential identifiers.

pub mod commands;
pub mod error;
pub mod models;
