//! In-memory storage of users and posts behind typed operations.

pub mod error;
pub mod laws;
pub mod listing;
pub mod models;
pub mod pagination;
pub mod store;
