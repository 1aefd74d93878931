//! Booking backend for a shared cargo-bike service.
//!
//! The crate holds the booking rules, the token ledger and the mapping
//! between requests and replies, all stated over an in-memory image of the
//! relational tables and proved against their contracts.

pub mod bindings;
pub mod routes;
pub mod database;
pub mod mailer;
pub mod mailer_errors;
