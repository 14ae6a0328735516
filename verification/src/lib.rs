//! Login and authorization core of a small expense-splitting backend.
//!
//! The crate decides; it performs no I/O. Handlers hand it what they read
//! (session values, query parameters, identity-provider responses, the
//! clock) and carry out the actions it hands back. What it needs of the
//! OAuth2 client library (random secrets, the authorization URL) it calls for
//! in `service::identity_provider`, and nowhere else.

pub mod api;
pub mod db;
pub mod server;
pub mod service;
pub mod text;
