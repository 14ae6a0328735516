//! Process-wide configuration.

pub mod application;
