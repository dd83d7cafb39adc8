//! Transactional persistence core for a goat record-keeping application.
//!
//! The library stores goat entities together with their many-to-many
//! relations to shared vaccine and disease reference rows, on top of an
//! embedded SQLite database reached through `rusqlite`.  Every operation is
//! specified against a mathematical model of the relational state
//! ([`model::StoreModel`]) and verified to keep that model consistent:
//! reference rows are never duplicated, link tables are replaced atomically,
//! and a failed operation leaves the store unchanged.

pub mod codec;
pub mod errors;
pub mod laws;
pub mod model;
pub mod models;
pub mod repo;
pub mod store;
