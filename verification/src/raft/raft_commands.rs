//! The commands of the replicated log, and the rule by which a replica
//! applies one.

use crate::lock::rules;
use crate::lock::rules::Table;
use crate::lock::types::{
    AcquireOutcome, AcquireResult, LeaseId, ReleaseOutcome, ReleaseResult, RenewOutcome,
    RenewResult,
};
use crate::time::{rfc3339_text, Timestamp};
use vstd::prelude::*;

verus! {

/// What a client asks of a lock. `request_id` tells the requests of one
/// proposing node apart.
#[derive(Debug)]
pub enum LockCommand {
    Acquire { lock_id: String, client_id: String, ttl_seconds: u64, request_id: u64 },
    Release { request_id: u64, lock_id: String, client_id: String, lease_id: String },
    Renew { request_id: u64, lock_id: String, client_id: String, ttl_seconds: u64, lease_id: String },
}

/// What a replica answers to a command that it has applied.
#[derive(Debug)]
pub enum CommandResponse {
    AcquireGranted { lease_id: String, expires_at: String },
    AcquireQueued { position: usize },
    Error { error_type: String, message: String },
    ReleaseSuccess,
    RenewSuccess { new_expiry: String },
}

/// A command as it stands in the log: with the instant at which it was
/// proposed, and the name of the lease to grant if applying it grants one.
/// Both are fixed by the node that proposes, so that every replica applies
/// the command to the same effect.
#[derive(Debug)]
pub struct Proposal {
    pub command: LockCommand,
    pub proposed_at: Timestamp,
    pub lease_token: LeaseId,
}

/// A [`LockCommand`] as plain values.
pub enum CommandView {
    Acquire { lock_id: Seq<char>, client_id: Seq<char>, ttl_seconds: nat, request_id: u64 },
    Release { request_id: u64, lock_id: Seq<char>, client_id: Seq<char>, lease_id: Seq<char> },
    Renew {
        request_id: u64,
        lock_id: Seq<char>,
        client_id: Seq<char>,
        ttl_seconds: nat,
        lease_id: Seq<char>,
    },
}

/// A [`CommandResponse`] as plain values.
pub enum ResponseView {
    AcquireGranted { lease_id: Seq<char>, expires_at: Seq<char> },
    AcquireQueued { position: nat },
    Error { error_type: Seq<char>, message: Seq<char> },
    ReleaseSuccess,
    RenewSuccess { new_expiry: Seq<char> },
}

/// A [`Proposal`] as plain values.
pub struct ProposalView {
    pub command: CommandView,
    pub proposed_at: int,
    pub lease_token: Seq<char>,
}

impl View for LockCommand {
    type V = CommandView;

    open spec fn view(&self) -> CommandView {
        match self {
            LockCommand::Acquire { lock_id, client_id, ttl_seconds, request_id } => {
                CommandView::Acquire {
                    lock_id: lock_id@,
                    client_id: client_id@,
                    ttl_seconds: *ttl_seconds as nat,
                    request_id: *request_id,
                }
            },
            LockCommand::Release { request_id, lock_id, client_id, lease_id } => {
                CommandView::Release {
                    request_id: *request_id,
                    lock_id: lock_id@,
                    client_id: client_id@,
                    lease_id: lease_id@,
                }
            },
            LockCommand::Renew { request_id, lock_id, client_id, ttl_seconds, lease_id } => {
                CommandView::Renew {
                    request_id: *request_id,
                    lock_id: lock_id@,
                    client_id: client_id@,
                    ttl_seconds: *ttl_seconds as nat,
                    lease_id: lease_id@,
                }
            },
        }
    }
}

impl View for CommandResponse {
    type V = ResponseView;

    open spec fn view(&self) -> ResponseView {
        match self {
            CommandResponse::AcquireGranted { lease_id, expires_at } => {
                ResponseView::AcquireGranted { lease_id: lease_id@, expires_at: expires_at@ }
            },
            CommandResponse::AcquireQueued { position } => ResponseView::AcquireQueued {
                position: *position as nat,
            },
            CommandResponse::Error { error_type, message } => ResponseView::Error {
                error_type: error_type@,
                message: message@,
            },
            CommandResponse::ReleaseSuccess => ResponseView::ReleaseSuccess,
            CommandResponse::RenewSuccess { new_expiry } => ResponseView::RenewSuccess {
                new_expiry: new_expiry@,
            },
        }
    }
}

impl View for Proposal {
    type V = ProposalView;

    open spec fn view(&self) -> ProposalView {
        ProposalView {
            command: self.command@,
            proposed_at: self.proposed_at@,
            lease_token: self.lease_token@,
        }
    }
}

impl CommandView {
    /// The number that tells this request from the others of its node.
    pub open spec fn request_id(self) -> u64 {
        match self {
            CommandView::Acquire { request_id, .. } => request_id,
            CommandView::Release { request_id, .. } => request_id,
            CommandView::Renew { request_id, .. } => request_id,
        }
    }
}

impl LockCommand {
    /// The number that tells this request from the others of its node.
    pub fn request_id(&self) -> (id: u64)
        ensures
            id == self@.request_id(),
    {
        match self {
            LockCommand::Acquire { request_id, .. } => *request_id,
            LockCommand::Release { request_id, .. } => *request_id,
            LockCommand::Renew { request_id, .. } => *request_id,
        }
    }
}

impl Clone for LockCommand {
    fn clone(&self) -> (copy: Self)
        ensures
            copy@ == self@,
    {
        match self {
            LockCommand::Acquire { lock_id, client_id, ttl_seconds, request_id } => {
                LockCommand::Acquire {
                    lock_id: lock_id.clone(),
                    client_id: client_id.clone(),
                    ttl_seconds: *ttl_seconds,
                    request_id: *request_id,
                }
            },
            LockCommand::Release { request_id, lock_id, client_id, lease_id } => {
                LockCommand::Release {
                    request_id: *request_id,
                    lock_id: lock_id.clone(),
                    client_id: client_id.clone(),
                    lease_id: lease_id.clone(),
                }
            },
            LockCommand::Renew { request_id, lock_id, client_id, ttl_seconds, lease_id } => {
                LockCommand::Renew {
                    request_id: *request_id,
                    lock_id: lock_id.clone(),
                    client_id: client_id.clone(),
                    ttl_seconds: *ttl_seconds,
                    lease_id: lease_id.clone(),
                }
            },
        }
    }
}

impl Clone for CommandResponse {
    fn clone(&self) -> (copy: Self)
        ensures
            copy@ == self@,
    {
        match self {
            CommandResponse::AcquireGranted { lease_id, expires_at } => {
                CommandResponse::AcquireGranted {
                    lease_id: lease_id.clone(),
                    expires_at: expires_at.clone(),
                }
            },
            CommandResponse::AcquireQueued { position } => CommandResponse::AcquireQueued {
                position: *position,
            },
            CommandResponse::Error { error_type, message } => CommandResponse::Error {
                error_type: error_type.clone(),
                message: message.clone(),
            },
            CommandResponse::ReleaseSuccess => CommandResponse::ReleaseSuccess,
            CommandResponse::RenewSuccess { new_expiry } => CommandResponse::RenewSuccess {
                new_expiry: new_expiry.clone(),
            },
        }
    }
}

impl Clone for Proposal {
    fn clone(&self) -> (copy: Self)
        ensures
            copy@ == self@,
    {
        Proposal {
            command: self.command.clone(),
            proposed_at: self.proposed_at,
            lease_token: self.lease_token.clone(),
        }
    }
}

/// The response that carries the outcome of an attempt to take a lock.
pub open spec fn acquire_reply(outcome: AcquireOutcome) -> ResponseView {
    match outcome {
        AcquireOutcome::Granted { lease_id, expires_at } => ResponseView::AcquireGranted {
            lease_id,
            expires_at: rfc3339_text(expires_at),
        },
        AcquireOutcome::Queued { position, .. } => ResponseView::AcquireQueued { position },
        AcquireOutcome::Error(message) => ResponseView::Error {
            error_type: "AcquireError"@,
            message,
        },
    }
}

/// The response that carries the outcome of an attempt to give a lock back.
pub open spec fn release_reply(outcome: ReleaseOutcome) -> ResponseView {
    match outcome {
        ReleaseOutcome::Success => ResponseView::ReleaseSuccess,
        ReleaseOutcome::NotFound => ResponseView::Error {
            error_type: "NotFound"@,
            message: "Lock not found"@,
        },
        ReleaseOutcome::NotHolder => ResponseView::Error {
            error_type: "NotHolder"@,
            message: "Not the lock holder"@,
        },
        ReleaseOutcome::Error(message) => ResponseView::Error {
            error_type: "ReleaseError"@,
            message,
        },
    }
}

/// The response that carries the outcome of an attempt to extend a lease.
pub open spec fn renew_reply(outcome: RenewOutcome) -> ResponseView {
    match outcome {
        RenewOutcome::Success { new_expiry } => ResponseView::RenewSuccess {
            new_expiry: rfc3339_text(new_expiry),
        },
        RenewOutcome::Expired => ResponseView::Error {
            error_type: "Expired"@,
            message: "Lock already expired"@,
        },
        RenewOutcome::NotFound => ResponseView::Error {
            error_type: "NotFound"@,
            message: "Lock not found"@,
        },
        RenewOutcome::NotHolder => ResponseView::Error {
            error_type: "NotHolder"@,
            message: "Not the lock holder"@,
        },
        RenewOutcome::Error(message) => ResponseView::Error { error_type: "RenewError"@, message },
    }
}

/// The table after a replica has applied `proposal`, and what it answers.
///
/// The instant and the lease name come from the proposal; `default_ttl` is
/// the replica's own, and the same on every replica of a cluster.
pub open spec fn apply(table: Table, default_ttl: nat, proposal: ProposalView) -> (
    Table,
    ResponseView,
) {
    match proposal.command {
        CommandView::Acquire { lock_id, client_id, ttl_seconds, .. } => {
            let (after, outcome) = rules::acquire(
                table,
                lock_id,
                client_id,
                ttl_seconds,
                proposal.proposed_at,
                proposal.lease_token,
            );
            (after, acquire_reply(outcome))
        },
        CommandView::Release { lock_id, client_id, lease_id, .. } => {
            let (after, outcome) = rules::release(
                table,
                lock_id,
                client_id,
                lease_id,
                default_ttl,
                proposal.proposed_at,
                proposal.lease_token,
            );
            (after, release_reply(outcome))
        },
        CommandView::Renew { lock_id, client_id, ttl_seconds, lease_id, .. } => {
            let (after, outcome) = rules::renew(
                table,
                lock_id,
                client_id,
                lease_id,
                ttl_seconds,
                proposal.proposed_at,
            );
            (after, renew_reply(outcome))
        },
    }
}

/// The table after a replica has applied the proposals of `log` in order.
pub open spec fn replay(table: Table, default_ttl: nat, log: Seq<ProposalView>) -> Table
    decreases log.len(),
{
    if log.len() == 0 {
        table
    } else {
        apply(replay(table, default_ttl, log.drop_last()), default_ttl, log.last()).0
    }
}

/// What a replica answers to each proposal of `log`, applied in order.
pub open spec fn replies(table: Table, default_ttl: nat, log: Seq<ProposalView>) -> Seq<
    ResponseView,
>
    decreases log.len(),
{
    if log.len() == 0 {
        Seq::empty()
    } else {
        replies(table, default_ttl, log.drop_last()).push(
            apply(replay(table, default_ttl, log.drop_last()), default_ttl, log.last()).1,
        )
    }
}

impl CommandResponse {
    /// The response that carries the result of an attempt to take a lock.
    pub fn from_acquire(result: AcquireResult) -> (response: CommandResponse)
        ensures
            response@ == acquire_reply(result@),
    {
        match result {
            AcquireResult::Granted { lease_id, expires_at } => CommandResponse::AcquireGranted {
                lease_id: lease_id.0,
                expires_at: expires_at.to_rfc3339(),
            },
            AcquireResult::Queued { position, .. } => CommandResponse::AcquireQueued { position },
            AcquireResult::Error(message) => CommandResponse::Error {
                error_type: "AcquireError".to_owned(),
                message,
            },
        }
    }

    /// The response that carries the result of an attempt to give a lock
    /// back.
    pub fn from_release(result: ReleaseResult) -> (response: CommandResponse)
        ensures
            response@ == release_reply(result@),
    {
        match result {
            ReleaseResult::Success => CommandResponse::ReleaseSuccess,
            ReleaseResult::NotFound => CommandResponse::Error {
                error_type: "NotFound".to_owned(),
                message: "Lock not found".to_owned(),
            },
            ReleaseResult::NotHolder => CommandResponse::Error {
                error_type: "NotHolder".to_owned(),
                message: "Not the lock holder".to_owned(),
            },
            ReleaseResult::Error(message) => CommandResponse::Error {
                error_type: "ReleaseError".to_owned(),
                message,
            },
        }
    }

    /// The response that carries the result of an attempt to extend a
    /// lease.
    pub fn from_renew(result: RenewResult) -> (response: CommandResponse)
        ensures
            response@ == renew_reply(result@),
    {
        match result {
            RenewResult::Success { new_expiry } => CommandResponse::RenewSuccess {
                new_expiry: new_expiry.to_rfc3339(),
            },
            RenewResult::Expired => CommandResponse::Error {
                error_type: "Expired".to_owned(),
                message: "Lock already expired".to_owned(),
            },
            RenewResult::NotFound => CommandResponse::Error {
                error_type: "NotFound".to_owned(),
                message: "Lock not found".to_owned(),
            },
            RenewResult::NotHolder => CommandResponse::Error {
                error_type: "NotHolder".to_owned(),
                message: "Not the lock holder".to_owned(),
            },
            RenewResult::Error(message) => CommandResponse::Error {
                error_type: "RenewError".to_owned(),
                message,
            },
        }
    }
}

} // verus!
