//! The rules of the lock table, as functions from table to table.
//!
//! A table maps a lock's name to what is recorded of it. Each rule takes the
//! instant at which it is applied, and the lease name to use if it grants,
//! as arguments: it reads no clock and draws no random number, so a table is
//! a function of the commands applied to it and of nothing else.

use crate::lock::types::{
    AcquireOutcome, HolderView, LockStateView, ReleaseOutcome, RenewOutcome, WaitView,
};
use crate::time::{after_secs, in_range, secs_between};
use vstd::prelude::*;

verus! {

/// What is recorded of every lock, by the lock's name.
pub type Table = Map<Seq<char>, LockStateView>;

/// The message of the error that is answered when a lease would end after
/// the last instant that a timestamp can name.
pub open spec fn ttl_too_large() -> Seq<char> {
    "TTL too large"@
}

/// The message of the error that is answered when a lease has been renewed
/// as often as its counter can count.
pub open spec fn renewals_exhausted() -> Seq<char> {
    "renewal count exhausted"@
}

/// Whether a lock can be granted at `now`: nobody holds it, or the holder's
/// lease has run out.
pub open spec fn free_at(state: LockStateView, now: int) -> bool {
    match state.holder {
        None => true,
        Some(holder) => holder.expires_at < now,
    }
}

/// Whether `client` holds the lock under `lease`.
pub open spec fn held_by(state: LockStateView, client: Seq<char>, lease: Seq<char>) -> bool {
    match state.holder {
        None => false,
        Some(holder) => holder.client_id == client && holder.lease_id == lease,
    }
}

/// The record of a lock that is first heard of at `now`.
pub open spec fn fresh_state(now: int) -> LockStateView {
    LockStateView { holder: None, wait_queue: Seq::empty(), created_at: now }
}

/// The record of `lock`, or that of a lock first heard of at `now` if the
/// table has none.
pub open spec fn state_or_fresh(table: Table, lock: Seq<char>, now: int) -> LockStateView {
    if table.contains_key(lock) {
        table[lock]
    } else {
        fresh_state(now)
    }
}

/// A lease that starts at `now` and runs for `ttl` seconds.
pub open spec fn new_lease(client: Seq<char>, lease: Seq<char>, ttl: nat, now: int) -> HolderView {
    HolderView {
        client_id: client,
        lease_id: lease,
        acquired_at: now,
        expires_at: after_secs(now, ttl as int),
        renewal_count: 0,
    }
}

/// `client` asks for `lock` at `now`, for `ttl` seconds.
///
/// A lock that is free goes to the caller under the name `lease`, whoever
/// waits for it; the record is made if the lock was unknown. A lock that is
/// held puts the caller at the end of its queue. If the lock is free and the
/// lease would end out of range, nothing changes and an error is answered.
pub open spec fn acquire(
    table: Table,
    lock: Seq<char>,
    client: Seq<char>,
    ttl: nat,
    now: int,
    lease: Seq<char>,
) -> (Table, AcquireOutcome) {
    let state = state_or_fresh(table, lock, now);
    if free_at(state, now) {
        if in_range(after_secs(now, ttl as int)) {
            let granted = LockStateView {
                holder: Some(new_lease(client, lease, ttl, now)),
                wait_queue: state.wait_queue,
                created_at: state.created_at,
            };
            (
                table.insert(lock, granted),
                AcquireOutcome::Granted {
                    lease_id: lease,
                    expires_at: after_secs(now, ttl as int),
                },
            )
        } else {
            (table, AcquireOutcome::Error(ttl_too_large()))
        }
    } else {
        let queued = LockStateView {
            holder: state.holder,
            wait_queue: state.wait_queue.push(WaitView { client_id: client, requested_at: now }),
            created_at: state.created_at,
        };
        (
            table.insert(lock, queued),
            AcquireOutcome::Queued {
                position: state.wait_queue.len(),
                estimated_wait: secs_between(now, state.holder.unwrap().expires_at) as nat,
            },
        )
    }
}

/// `client` gives `lock` back at `now`, naming the lease it holds it under.
///
/// With nobody waiting the lock becomes free. Otherwise the client at the
/// head of the queue leaves the queue and holds the lock under the name
/// `next_lease`, for `default_ttl` seconds from `now`; if that lease would
/// end out of range, nothing changes and an error is answered.
pub open spec fn release(
    table: Table,
    lock: Seq<char>,
    client: Seq<char>,
    lease: Seq<char>,
    default_ttl: nat,
    now: int,
    next_lease: Seq<char>,
) -> (Table, ReleaseOutcome) {
    if !table.contains_key(lock) {
        (table, ReleaseOutcome::NotFound)
    } else if !held_by(table[lock], client, lease) {
        (table, ReleaseOutcome::NotHolder)
    } else if table[lock].wait_queue.len() == 0 {
        let freed = LockStateView {
            holder: None,
            wait_queue: table[lock].wait_queue,
            created_at: table[lock].created_at,
        };
        (table.insert(lock, freed), ReleaseOutcome::Success)
    } else if in_range(after_secs(now, default_ttl as int)) {
        let promoted = LockStateView {
            holder: Some(
                new_lease(table[lock].wait_queue.first().client_id, next_lease, default_ttl, now),
            ),
            wait_queue: table[lock].wait_queue.drop_first(),
            created_at: table[lock].created_at,
        };
        (table.insert(lock, promoted), ReleaseOutcome::Success)
    } else {
        (table, ReleaseOutcome::Error(ttl_too_large()))
    }
}

/// `client` asks at `now` that the lease it holds `lock` under run for `ttl`
/// seconds from `now`.
pub open spec fn renew(
    table: Table,
    lock: Seq<char>,
    client: Seq<char>,
    lease: Seq<char>,
    ttl: nat,
    now: int,
) -> (Table, RenewOutcome) {
    if !table.contains_key(lock) {
        (table, RenewOutcome::NotFound)
    } else if !held_by(table[lock], client, lease) {
        (table, RenewOutcome::NotHolder)
    } else if table[lock].holder.unwrap().expires_at < now {
        (table, RenewOutcome::Expired)
    } else if !in_range(after_secs(now, ttl as int)) {
        (table, RenewOutcome::Error(ttl_too_large()))
    } else if table[lock].holder.unwrap().renewal_count >= u32::MAX {
        (table, RenewOutcome::Error(renewals_exhausted()))
    } else {
        let holder = table[lock].holder.unwrap();
        let renewed = LockStateView {
            holder: Some(
                HolderView {
                    client_id: holder.client_id,
                    lease_id: holder.lease_id,
                    acquired_at: holder.acquired_at,
                    expires_at: after_secs(now, ttl as int),
                    renewal_count: holder.renewal_count + 1,
                },
            ),
            wait_queue: table[lock].wait_queue,
            created_at: table[lock].created_at,
        };
        (
            table.insert(lock, renewed),
            RenewOutcome::Success { new_expiry: after_secs(now, ttl as int) },
        )
    }
}

/// What is recorded of `lock`, if anything.
pub open spec fn status(table: Table, lock: Seq<char>) -> Option<LockStateView> {
    if table.contains_key(lock) {
        Some(table[lock])
    } else {
        None
    }
}

/// The client that is recorded as the holder of `lock`, if any.
pub open spec fn holder_of(table: Table, lock: Seq<char>) -> Option<Seq<char>> {
    if table.contains_key(lock) && table[lock].holder.is_some() {
        Some(table[lock].holder.unwrap().client_id)
    } else {
        None
    }
}

/// The number of clients that wait for `lock`.
pub open spec fn waiting_for(table: Table, lock: Seq<char>) -> nat {
    if table.contains_key(lock) {
        table[lock].wait_queue.len()
    } else {
        0
    }
}

} // verus!
