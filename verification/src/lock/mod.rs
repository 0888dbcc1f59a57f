//! The lock table and the rules that change it.

pub mod laws;
pub mod manager;
pub mod rules;
pub mod types;
