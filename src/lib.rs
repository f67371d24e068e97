//! Versioned batch persistence for infrastructure definitions.
//!
//! The database and HTTP edges live outside this library: the store is driven
//! by state machines that say which statement to issue next and how to react
//! to what the store answered.

pub mod batch;
pub mod core_client;
pub mod infra;
pub mod pagination;
pub mod persist;
pub mod primitives;
pub mod rolling_stock;
pub mod route;
pub mod simulation;
