//! Services behind the handlers.

pub mod allow_list;
pub mod auth_service;
pub mod error;
pub mod identity_provider;
