//! The operations of the service on the relational state.

pub mod bike;
pub mod challenge;
pub mod rent;
pub mod supporter;
