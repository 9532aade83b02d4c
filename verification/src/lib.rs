//! Verified core of a service that creates book records: it checks the request
//! body, gives the record a fresh identifier, describes the single write to the
//! store, and builds the response.

pub mod handler;
pub mod ident;
pub mod json;
pub mod laws;
pub mod record;
pub mod response;
pub mod store;
