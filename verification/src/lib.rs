//! A lock service for a cluster: clients take, renew and give back named
//! locks under leases that run out, and those that find a lock held wait for
//! it in the order in which they asked.
//!
//! The state of the service is a table of locks, and every replica of a
//! cluster holds one. The replicas agree on a log of commands and each
//! applies the log to its table. For the tables to stay equal, applying a
//! command must depend on the table and the command alone. So the rules in
//! [`lock::rules`] take the instant at which they are applied and the name
//! of the lease they grant as arguments, and a command carries both from the
//! node that proposed it ([`raft::raft_commands::Proposal`]).
//!
//! - [`time`]: instants, to the millisecond.
//! - [`lock`]: the table ([`lock::manager::InMemoryLockManager`]), the rules
//!   that change it, and what holds of those rules.
//! - [`raft`]: the commands of the log, the rule by which a replica applies
//!   one, and what a node decides when it is handed a proposal or an entry.
//!   The node here does no input or output; the program around it runs the
//!   consensus engine and carries out what the node decides.
//! - [`api`]: the bodies of the HTTP requests and answers, and how a request
//!   is answered from a table.

pub mod api;
pub mod lock;
pub mod raft;
pub mod time;
