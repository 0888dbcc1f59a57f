//! The side that proposes: it numbers each request and fixes the instant and
//! the lease name that every replica will apply it with.

use crate::lock::types::{clock_out_of_range, LeaseId, LEASE_TOKEN_LEN};
use crate::raft::raft_commands::{CommandView, LockCommand, Proposal};
use crate::time::{in_range, Timestamp};
use vstd::prelude::*;

verus! {

/// Numbers the requests of one node, from 1 on.
pub struct RaftClient {
    next_request_id: u64,
}

/// The number after `id`; after the largest comes 0.
pub open spec fn next_id(id: u64) -> u64 {
    if id == u64::MAX {
        0
    } else {
        (id + 1) as u64
    }
}

impl Proposal {
    /// `command` as it goes into the log, proposed at the instant `now` and
    /// with `lease_token` as the name of the lease to grant; or the error
    /// that there is no such instant.
    pub fn stamped(command: LockCommand, now: Option<Timestamp>, lease_token: LeaseId) -> (proposal:
        Result<Proposal, String>)
        ensures
            match (now, proposal) {
                (Some(at), Ok(p)) => p.command == command && p.proposed_at == at && p.lease_token
                    == lease_token,
                (None, Err(message)) => message@ == clock_out_of_range(),
                _ => false,
            },
    {
        match now {
            Some(proposed_at) => Ok(Proposal { command, proposed_at, lease_token }),
            None => Err("clock out of range".to_owned()),
        }
    }
}

impl RaftClient {
    /// A client whose first request gets the number 1.
    pub fn new() -> (client: Self)
        ensures
            client.next_request_id() == 1,
    {
        RaftClient { next_request_id: 1 }
    }

    /// The number that the next request gets.
    pub closed spec fn next_request_id(&self) -> u64 {
        self.next_request_id
    }

    /// The number for a new request. No two calls give the same number until
    /// all numbers have been given.
    pub fn generate_new_index(&mut self) -> (id: u64)
        ensures
            id == old(self).next_request_id(),
            final(self).next_request_id() == next_id(id),
    {
        let id = self.next_request_id;
        self.next_request_id = if id == u64::MAX {
            0
        } else {
            id + 1
        };
        id
    }

    /// `command` as it goes into the log: with the time of the system clock
    /// as the instant at which it is proposed, and a lease name drawn at
    /// random. The error is that the clock stands outside the range of a
    /// timestamp.
    pub fn propose(&self, command: LockCommand) -> (proposal: Result<Proposal, String>)
        ensures
            match proposal {
                Ok(p) => p.command == command && in_range(p.proposed_at@) && p.lease_token@.len()
                    == LEASE_TOKEN_LEN,
                Err(message) => message@ == clock_out_of_range(),
            },
    {
        let lease_token = LeaseId::fresh();
        let now = Timestamp::now();
        Proposal::stamped(command, now, lease_token)
    }

    /// A numbered request to take `lock_id` for `client_id`, for
    /// `ttl_seconds` seconds, as it goes into the log.
    pub fn propose_acquire(&mut self, lock_id: String, client_id: String, ttl_seconds: u64) -> (
        proposal: Result<Proposal, String>)
        ensures
            final(self).next_request_id() == next_id(old(self).next_request_id()),
            match proposal {
                Ok(p) => p.command@ == (CommandView::Acquire {
                    lock_id: lock_id@,
                    client_id: client_id@,
                    ttl_seconds: ttl_seconds as nat,
                    request_id: old(self).next_request_id(),
                }) && in_range(p.proposed_at@) && p.lease_token@.len() == LEASE_TOKEN_LEN,
                Err(message) => message@ == clock_out_of_range(),
            },
    {
        let request_id = self.generate_new_index();
        let command = LockCommand::Acquire { lock_id, client_id, ttl_seconds, request_id };
        self.propose(command)
    }

    /// A numbered request to extend the lease `lease_id` that `client_id`
    /// holds `lock_id` under, to `ttl_seconds` seconds, as it goes into the
    /// log.
    pub fn propose_renew(
        &mut self,
        lease_id: String,
        lock_id: String,
        client_id: String,
        ttl_seconds: u64,
    ) -> (proposal: Result<Proposal, String>)
        ensures
            final(self).next_request_id() == next_id(old(self).next_request_id()),
            match proposal {
                Ok(p) => p.command@ == (CommandView::Renew {
                    request_id: old(self).next_request_id(),
                    lock_id: lock_id@,
                    client_id: client_id@,
                    ttl_seconds: ttl_seconds as nat,
                    lease_id: lease_id@,
                }) && in_range(p.proposed_at@) && p.lease_token@.len() == LEASE_TOKEN_LEN,
                Err(message) => message@ == clock_out_of_range(),
            },
    {
        let request_id = self.generate_new_index();
        let command = LockCommand::Renew { request_id, lock_id, client_id, ttl_seconds, lease_id };
        self.propose(command)
    }

    /// A numbered request to give back `lock_id`, which `client_id` holds
    /// under the lease `lease_id`, as it goes into the log.
    pub fn propose_release(&mut self, lease_id: String, lock_id: String, client_id: String) -> (
        proposal: Result<Proposal, String>)
        ensures
            final(self).next_request_id() == next_id(old(self).next_request_id()),
            match proposal {
                Ok(p) => p.command@ == (CommandView::Release {
                    request_id: old(self).next_request_id(),
                    lock_id: lock_id@,
                    client_id: client_id@,
                    lease_id: lease_id@,
                }) && in_range(p.proposed_at@) && p.lease_token@.len() == LEASE_TOKEN_LEN,
                Err(message) => message@ == clock_out_of_range(),
            },
    {
        let request_id = self.generate_new_index();
        let command = LockCommand::Release { request_id, lock_id, client_id, lease_id };
        self.propose(command)
    }
}

} // verus!
