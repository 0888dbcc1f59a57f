//! How each request is answered from a lock table.

use crate::api::models::{
    AcquireBody, AcquireRequest, AcquireResponse, ReleaseBody, ReleaseRequest, ReleaseResponse,
    RenewBody, RenewRequest, RenewResponse, StatusBody, StatusResponse,
};
use crate::api::utils::{change_to_client_id, change_to_lease_id, change_to_lock_id};
use crate::lock::rules;
use crate::lock::rules::Table;
use crate::lock::types::{
    acquired_at, clock_out_of_range, released_at, renewed_at, state_view, AcquireOutcome,
    AcquireResult, LockId, LockManager, LockState, LockStateView, ReleaseOutcome, ReleaseResult,
    RenewOutcome, RenewResult,
};
use crate::time::rfc3339_text;
use vstd::prelude::*;

verus! {

/// The body that carries the outcome of an attempt to take a lock.
pub open spec fn acquire_body(outcome: AcquireOutcome) -> AcquireBody {
    match outcome {
        AcquireOutcome::Granted { lease_id, expires_at } => AcquireBody::Granted {
            lease_id,
            expires_at: rfc3339_text(expires_at),
        },
        AcquireOutcome::Queued { position, estimated_wait } => AcquireBody::Queued {
            position,
            estimated_wait,
        },
        AcquireOutcome::Error(message) => AcquireBody::Error {
            error_type: "AcquireFailure"@,
            message,
        },
    }
}

/// The body that carries the outcome of an attempt to give a lock back.
pub open spec fn release_body(outcome: ReleaseOutcome) -> ReleaseBody {
    match outcome {
        ReleaseOutcome::Success => ReleaseBody::Success,
        ReleaseOutcome::NotFound => ReleaseBody::Error {
            error_type: "NotFound"@,
            message: "This lock does not exist"@,
        },
        ReleaseOutcome::NotHolder => ReleaseBody::Error {
            error_type: "NotHolder"@,
            message: "This lock does not exist"@,
        },
        ReleaseOutcome::Error(message) => ReleaseBody::Error {
            error_type: "ServerError"@,
            message,
        },
    }
}

/// The body that carries the outcome of an attempt to extend a lease.
pub open spec fn renew_body(outcome: RenewOutcome) -> RenewBody {
    match outcome {
        RenewOutcome::Success { new_expiry } => RenewBody::Success {
            new_expiry: rfc3339_text(new_expiry),
        },
        RenewOutcome::Expired => RenewBody::Error {
            error_type: "Expired"@,
            message: "Lease expired"@,
        },
        RenewOutcome::NotFound => RenewBody::Error {
            error_type: "NotFound"@,
            message: "Lock not found"@,
        },
        RenewOutcome::NotHolder => RenewBody::Error {
            error_type: "NotHolder"@,
            message: "Lock not Holder"@,
        },
        RenewOutcome::Error(message) => RenewBody::Error { error_type: "ServerError"@, message },
    }
}

/// The body that tells what is recorded of a lock: held, free, or unknown.
pub open spec fn status_body(state: Option<LockStateView>) -> StatusBody {
    match state {
        None => StatusBody::NotFound,
        Some(state) => match state.holder {
            None => StatusBody::Free,
            Some(holder) => StatusBody::InUse {
                client_id: holder.client_id,
                expires_at: rfc3339_text(holder.expires_at),
                lease_id: holder.lease_id,
                queue_length: state.wait_queue.len(),
                created_at: rfc3339_text(state.created_at),
            },
        },
    }
}

impl AcquireResponse {
    /// The body that carries `result`.
    pub fn from_result(result: AcquireResult) -> (response: AcquireResponse)
        ensures
            response@ == acquire_body(result@),
    {
        match result {
            AcquireResult::Granted { lease_id, expires_at } => AcquireResponse::Granted {
                lease_id: lease_id.0,
                expires_at: expires_at.to_rfc3339(),
            },
            AcquireResult::Queued { position, estimated_wait } => AcquireResponse::Queued {
                position,
                estimated_wait,
            },
            AcquireResult::Error(message) => AcquireResponse::Error {
                error_type: "AcquireFailure".to_owned(),
                message,
            },
        }
    }
}

impl ReleaseResponse {
    /// The body that carries `result`.
    pub fn from_result(result: ReleaseResult) -> (response: ReleaseResponse)
        ensures
            response@ == release_body(result@),
    {
        match result {
            ReleaseResult::Success => ReleaseResponse::Success,
            ReleaseResult::NotFound => ReleaseResponse::Error {
                error_type: "NotFound".to_owned(),
                message: "This lock does not exist".to_owned(),
            },
            ReleaseResult::NotHolder => ReleaseResponse::Error {
                error_type: "NotHolder".to_owned(),
                message: "This lock does not exist".to_owned(),
            },
            ReleaseResult::Error(message) => ReleaseResponse::Error {
                error_type: "ServerError".to_owned(),
                message,
            },
        }
    }
}

impl RenewResponse {
    /// The body that carries `result`.
    pub fn from_result(result: RenewResult) -> (response: RenewResponse)
        ensures
            response@ == renew_body(result@),
    {
        match result {
            RenewResult::Success { new_expiry } => RenewResponse::Success {
                new_expiry: new_expiry.to_rfc3339(),
            },
            RenewResult::Expired => RenewResponse::Error {
                error_type: "Expired".to_owned(),
                message: "Lease expired".to_owned(),
            },
            RenewResult::NotFound => RenewResponse::Error {
                error_type: "NotFound".to_owned(),
                message: "Lock not found".to_owned(),
            },
            RenewResult::NotHolder => RenewResponse::Error {
                error_type: "NotHolder".to_owned(),
                message: "Lock not Holder".to_owned(),
            },
            RenewResult::Error(message) => RenewResponse::Error {
                error_type: "ServerError".to_owned(),
                message,
            },
        }
    }
}

impl StatusResponse {
    /// The body that tells what is recorded of a lock.
    pub fn from_state(state: Option<LockState>) -> (response: StatusResponse)
        ensures
            response@ == status_body(state_view(state)),
    {
        match state {
            None => StatusResponse::NotFound,
            Some(state) => match state.holder {
                None => StatusResponse::Free,
                Some(holder) => StatusResponse::InUse {
                    client_id: holder.client_id.0,
                    expires_at: holder.expires_at.to_rfc3339(),
                    lease_id: holder.lease_id.0,
                    queue_length: state.wait_queue.len(),
                    created_at: state.created_at.to_rfc3339(),
                },
            },
        }
    }
}

/// The answer to a request that only asks whether the service is up.
pub fn health_check() -> (text: &'static str)
    ensures
        text@ == "Ok"@,
{
    "Ok"
}

/// Whether `after` and `body` are what taking the lock gives at the instant
/// `now` with the lease name `lease`.
pub open spec fn acquire_answered_at(
    before: Table,
    after: Table,
    body: AcquireBody,
    lock: Seq<char>,
    client: Seq<char>,
    ttl: nat,
    now: int,
    lease: Seq<char>,
) -> bool {
    exists|outcome: AcquireOutcome| #[trigger]
        acquired_at(before, after, outcome, lock, client, ttl, now, lease) && body == acquire_body(
            outcome,
        )
}

/// Whether `after` and `body` are what giving the lock back gives at the
/// instant `now` with the lease name `next_lease`.
pub open spec fn release_answered_at(
    before: Table,
    after: Table,
    body: ReleaseBody,
    lock: Seq<char>,
    client: Seq<char>,
    lease: Seq<char>,
    default_ttl: nat,
    now: int,
    next_lease: Seq<char>,
) -> bool {
    exists|outcome: ReleaseOutcome| #[trigger]
        released_at(before, after, outcome, lock, client, lease, default_ttl, now, next_lease)
            && body == release_body(outcome)
}

/// Whether `after` and `body` are what extending the lease gives at the
/// instant `now`.
pub open spec fn renew_answered_at(
    before: Table,
    after: Table,
    body: RenewBody,
    lock: Seq<char>,
    client: Seq<char>,
    lease: Seq<char>,
    ttl: nat,
    now: int,
) -> bool {
    exists|outcome: RenewOutcome| #[trigger]
        renewed_at(before, after, outcome, lock, client, lease, ttl, now) && body == renew_body(
            outcome,
        )
}

/// Answers a request to take a lock: the lock table is asked, at the time of
/// its clock, and what it says is the answer.
pub fn acquire_handler<M: LockManager>(manager: &mut M, payload: &AcquireRequest) -> (response:
    AcquireResponse)
    ensures
        final(manager).promotion_ttl() == old(manager).promotion_ttl(),
        (response@ == acquire_body(AcquireOutcome::Error(clock_out_of_range())) && final(manager).table() == old(manager).table()) || (exists|now: int, lease: Seq<char>| #[trigger]
            acquire_answered_at(
                old(manager).table(),
                final(manager).table(),
                response@,
                payload.lock_id@,
                payload.client_id@,
                payload.time_to_live as nat,
                now,
                lease,
            )),
{
    let lock_id = change_to_lock_id(&payload.lock_id);
    let client_id = change_to_client_id(&payload.client_id);
    let result = manager.try_acquire(&lock_id, &client_id, payload.time_to_live);
    let ghost outcome = result@;
    let response = AcquireResponse::from_result(result);
    proof {
        if !(outcome == AcquireOutcome::Error(clock_out_of_range()) && manager.table() == old(manager).table()) {
            let (now, lease) = choose|now: int, lease: Seq<char>| #[trigger]
                acquired_at(
                    old(manager).table(),
                    manager.table(),
                    outcome,
                    payload.lock_id@,
                    payload.client_id@,
                    payload.time_to_live as nat,
                    now,
                    lease,
                );
            assert(acquire_answered_at(
                old(manager).table(),
                manager.table(),
                response@,
                payload.lock_id@,
                payload.client_id@,
                payload.time_to_live as nat,
                now,
                lease,
            ));
        }
    }
    response
}

/// Answers a request to give a lock back.
pub fn release_handler<M: LockManager>(manager: &mut M, payload: &ReleaseRequest) -> (response:
    ReleaseResponse)
    ensures
        final(manager).promotion_ttl() == old(manager).promotion_ttl(),
        (response@ == release_body(ReleaseOutcome::Error(clock_out_of_range())) && final(manager).table() == old(manager).table()) || (exists|now: int, next_lease: Seq<char>| #[trigger]
            release_answered_at(
                old(manager).table(),
                final(manager).table(),
                response@,
                payload.lock_id@,
                payload.client_id@,
                payload.lease_id@,
                old(manager).promotion_ttl(),
                now,
                next_lease,
            )),
{
    let lock_id = change_to_lock_id(&payload.lock_id);
    let client_id = change_to_client_id(&payload.client_id);
    let lease_id = change_to_lease_id(&payload.lease_id);
    let result = manager.release(&lock_id, &client_id, &lease_id);
    let ghost outcome = result@;
    let response = ReleaseResponse::from_result(result);
    proof {
        if !(outcome == ReleaseOutcome::Error(clock_out_of_range()) && manager.table() == old(manager).table()) {
            let (now, next_lease) = choose|now: int, next_lease: Seq<char>| #[trigger]
                released_at(
                    old(manager).table(),
                    manager.table(),
                    outcome,
                    payload.lock_id@,
                    payload.client_id@,
                    payload.lease_id@,
                    old(manager).promotion_ttl(),
                    now,
                    next_lease,
                );
            assert(release_answered_at(
                old(manager).table(),
                manager.table(),
                response@,
                payload.lock_id@,
                payload.client_id@,
                payload.lease_id@,
                old(manager).promotion_ttl(),
                now,
                next_lease,
            ));
        }
    }
    response
}

/// Answers a request to extend a lease.
pub fn renew_handler<M: LockManager>(manager: &mut M, payload: &RenewRequest) -> (response:
    RenewResponse)
    ensures
        final(manager).promotion_ttl() == old(manager).promotion_ttl(),
        (response@ == renew_body(RenewOutcome::Error(clock_out_of_range())) && final(manager).table() == old(manager).table()) || (exists|now: int| #[trigger]
            renew_answered_at(
                old(manager).table(),
                final(manager).table(),
                response@,
                payload.lock_id@,
                payload.client_id@,
                payload.lease_id@,
                payload.time_to_live as nat,
                now,
            )),
{
    let lock_id = change_to_lock_id(&payload.lock_id);
    let client_id = change_to_client_id(&payload.client_id);
    let lease_id = change_to_lease_id(&payload.lease_id);
    let result = manager.renew(&lock_id, &client_id, &lease_id, payload.time_to_live);
    let ghost outcome = result@;
    let response = RenewResponse::from_result(result);
    proof {
        if !(outcome == RenewOutcome::Error(clock_out_of_range()) && manager.table() == old(manager).table()) {
            let now = choose|now: int| #[trigger]
                renewed_at(
                    old(manager).table(),
                    manager.table(),
                    outcome,
                    payload.lock_id@,
                    payload.client_id@,
                    payload.lease_id@,
                    payload.time_to_live as nat,
                    now,
                );
            assert(renew_answered_at(
                old(manager).table(),
                manager.table(),
                response@,
                payload.lock_id@,
                payload.client_id@,
                payload.lease_id@,
                payload.time_to_live as nat,
                now,
            ));
        }
    }
    response
}

/// Answers a question about a lock: who holds it and until when, that it is
/// free, or that it is unknown. Nothing changes.
pub fn status_handler<M: LockManager>(manager: &M, lock_id: String) -> (response: StatusResponse)
    ensures
        response@ == status_body(rules::status(manager.table(), lock_id@)),
{
    StatusResponse::from_state(manager.status(&LockId(lock_id)))
}

} // verus!
