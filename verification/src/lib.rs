//! A small to-do list service: the entity and command types, the repository
//! contract, its in-memory implementation behind a reader/writer lock, and
//! the handlers that answer requests from a repository.

pub mod handlers;
pub mod laws;
pub mod model;
pub mod repositories;
pub mod store;
