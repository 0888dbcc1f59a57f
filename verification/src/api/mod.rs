//! What the service takes in and gives out over HTTP, and how a request is
//! answered from the lock table.

pub mod handlers;
pub mod models;
pub mod utils;
