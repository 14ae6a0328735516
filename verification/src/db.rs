//! Rows of the relational store, and the rules the store keeps for them.

pub mod balance;
pub mod expense;
pub mod expense_category;
pub mod image;
pub mod user;
