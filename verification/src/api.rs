//! What the HTTP handlers decide.

pub mod auth;
pub mod balance;
pub mod expense;
pub mod expense_category;
pub mod image;
pub mod me;
pub mod user;
pub mod util;
