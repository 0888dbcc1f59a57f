//! The commands that the replicas agree on, and what a node decides when it
//! is handed one.

pub mod correlator;
pub mod laws;
pub mod node;
pub mod raft_client;
pub mod raft_commands;
