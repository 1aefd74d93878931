//! The relational state that the service works on, and the operations on it.

pub mod models;
pub mod selection;
pub mod store;
pub mod daos;
