//! Request and reply mapping.
//!
//! A request's texts are read here: the locale, the token, the moment. A
//! text that cannot be read ends the request before the booking engine or
//! the token ledger is asked. What those answer is turned into the reply's
//! record; the caller writes it out.

use vstd::prelude::*;

pub mod bike;
pub mod challenge;
pub mod errors;
pub mod rent;
pub mod supporter;

verus! {

/// Name under which the service announces itself.
pub const SERVICE_NAME: &'static str = "cargobike_share_backend";

/// Version that the service announces.
pub const SERVICE_VERSION: &'static str = "0.1.0";

/// What the root path answers: who is serving, and in which version.
#[derive(Debug, PartialEq, Eq)]
pub struct ServiceInfo {
    pub name: String,
    pub version: String,
}

/// The reply that carries a token: the token's identifier as text.
#[derive(Debug, PartialEq, Eq)]
pub struct TokenReply {
    pub token: String,
}

/// Answers the root path with the service's name and version.
pub fn index() -> (info: ServiceInfo)
    ensures
        info.name@ == SERVICE_NAME@,
        info.version@ == SERVICE_VERSION@,
{
    ServiceInfo { name: SERVICE_NAME.to_owned(), version: SERVICE_VERSION.to_owned() }
}

} // verus!
