//! What holds of the rules in [`rules`](crate::lock::rules), whatever the
//! table and whoever asks.

use crate::lock::rules::{
    acquire, free_at, held_by, release, renew, state_or_fresh, ttl_too_large, Table,
};
use crate::lock::types::{AcquireOutcome, ReleaseOutcome, RenewOutcome, WaitView};
use crate::time::{after_secs, in_range, secs_between};
use vstd::prelude::*;

verus! {

/// A lock has at most one holder: two clients that both hold it, each under
/// a lease, are one client under one lease.
pub proof fn lemma_one_holder(
    table: Table,
    lock: Seq<char>,
    client_a: Seq<char>,
    lease_a: Seq<char>,
    client_b: Seq<char>,
    lease_b: Seq<char>,
)
    requires
        table.contains_key(lock),
        held_by(table[lock], client_a, lease_a),
        held_by(table[lock], client_b, lease_b),
    ensures
        client_a == client_b,
        lease_a == lease_b,
{
}

/// A lock is granted to a client that asks for it only if it was free when
/// the client asked: unknown, without a holder, or with a lease that had run
/// out. The holder before, if there was one, holds it no longer.
pub proof fn lemma_grant_only_when_free(
    table: Table,
    lock: Seq<char>,
    client: Seq<char>,
    ttl: nat,
    now: int,
    lease: Seq<char>,
)
    requires
        acquire(table, lock, client, ttl, now, lease).1 is Granted,
    ensures
        free_at(state_or_fresh(table, lock, now), now),
        held_by(acquire(table, lock, client, ttl, now, lease).0[lock], client, lease),
{
}

/// Asking for a free lock grants it: the caller holds it under the lease
/// name it brought, from `now` until `ttl` seconds later, and nobody joins
/// or leaves the queue. This holds unless the lease would end after the last
/// instant that a timestamp can name.
pub proof fn lemma_acquire_free_grants(
    table: Table,
    lock: Seq<char>,
    client: Seq<char>,
    ttl: nat,
    now: int,
    lease: Seq<char>,
)
    requires
        free_at(state_or_fresh(table, lock, now), now),
        in_range(after_secs(now, ttl as int)),
    ensures
        acquire(table, lock, client, ttl, now, lease).1 == (AcquireOutcome::Granted {
            lease_id: lease,
            expires_at: after_secs(now, ttl as int),
        }),
        ({
            let after = acquire(table, lock, client, ttl, now, lease).0;
            &&& after.contains_key(lock)
            &&& held_by(after[lock], client, lease)
            &&& after[lock].holder.unwrap().acquired_at == now
            &&& after[lock].holder.unwrap().expires_at == after_secs(now, ttl as int)
            &&& after[lock].holder.unwrap().renewal_count == 0
            &&& after[lock].wait_queue == state_or_fresh(table, lock, now).wait_queue
            &&& forall|other: Seq<char>|
                other != lock ==> after.contains_key(other) == table.contains_key(other)
                    && after[other] == table[other]
        }),
{
}

/// Asking for a lock that is held, under a lease that has not run out, puts
/// the caller at the end of the queue; its position is the number of clients
/// that were waiting. The holder stays, and so does everyone ahead in the
/// queue, in their order.
pub proof fn lemma_acquire_held_queues(
    table: Table,
    lock: Seq<char>,
    client: Seq<char>,
    ttl: nat,
    now: int,
    lease: Seq<char>,
)
    requires
        table.contains_key(lock),
        !free_at(table[lock], now),
    ensures
        acquire(table, lock, client, ttl, now, lease).1 == (AcquireOutcome::Queued {
            position: table[lock].wait_queue.len(),
            estimated_wait: secs_between(now, table[lock].holder.unwrap().expires_at) as nat,
        }),
        ({
            let after = acquire(table, lock, client, ttl, now, lease).0;
            &&& after.contains_key(lock)
            &&& after[lock].holder == table[lock].holder
            &&& after[lock].wait_queue == table[lock].wait_queue.push(
                WaitView { client_id: client, requested_at: now },
            )
            &&& forall|i: int|
                0 <= i < table[lock].wait_queue.len() ==> after[lock].wait_queue[i]
                    == table[lock].wait_queue[i]
        }),
{
}

/// An attempt to give back a lock that the caller does not hold under the
/// lease it names (another client holds it, or the lease has another name,
/// or nobody holds it) is answered `NotHolder` and changes nothing.
pub proof fn lemma_release_by_other_changes_nothing(
    table: Table,
    lock: Seq<char>,
    client: Seq<char>,
    lease: Seq<char>,
    default_ttl: nat,
    now: int,
    next_lease: Seq<char>,
)
    requires
        table.contains_key(lock),
        !held_by(table[lock], client, lease),
    ensures
        release(table, lock, client, lease, default_ttl, now, next_lease) == (
            table,
            ReleaseOutcome::NotHolder,
        ),
{
}

/// When the holder gives back a lock that clients wait for, the client at
/// the head of the queue holds it next, under the new lease name, and the
/// others move up by one in their order. A new lease name that differs from
/// the one given back makes the holder's lease differ from it. This holds
/// unless the new lease would end after the last instant that a timestamp
/// can name.
pub proof fn lemma_release_promotes_head(
    table: Table,
    lock: Seq<char>,
    client: Seq<char>,
    lease: Seq<char>,
    default_ttl: nat,
    now: int,
    next_lease: Seq<char>,
)
    requires
        table.contains_key(lock),
        held_by(table[lock], client, lease),
        table[lock].wait_queue.len() > 0,
        in_range(after_secs(now, default_ttl as int)),
    ensures
        release(table, lock, client, lease, default_ttl, now, next_lease).1
            == ReleaseOutcome::Success,
        ({
            let after = release(table, lock, client, lease, default_ttl, now, next_lease).0;
            &&& after.contains_key(lock)
            &&& held_by(after[lock], table[lock].wait_queue[0].client_id, next_lease)
            &&& after[lock].holder.unwrap().acquired_at == now
            &&& after[lock].holder.unwrap().expires_at == after_secs(now, default_ttl as int)
            &&& after[lock].holder.unwrap().renewal_count == 0
            &&& after[lock].wait_queue.len() == table[lock].wait_queue.len() - 1
            &&& forall|i: int|
                0 <= i < after[lock].wait_queue.len() ==> after[lock].wait_queue[i]
                    == table[lock].wait_queue[i + 1]
            &&& next_lease != lease ==> !held_by(after[lock], client, lease)
        }),
{
}

/// When the holder gives back a lock that nobody waits for, the lock is
/// free.
pub proof fn lemma_release_frees(
    table: Table,
    lock: Seq<char>,
    client: Seq<char>,
    lease: Seq<char>,
    default_ttl: nat,
    now: int,
    next_lease: Seq<char>,
)
    requires
        table.contains_key(lock),
        held_by(table[lock], client, lease),
        table[lock].wait_queue.len() == 0,
    ensures
        release(table, lock, client, lease, default_ttl, now, next_lease).1
            == ReleaseOutcome::Success,
        release(table, lock, client, lease, default_ttl, now, next_lease).0[lock].holder.is_none(),
{
}

/// An attempt to renew a lease that has run out is answered `Expired` and
/// changes nothing.
pub proof fn lemma_renew_expired_changes_nothing(
    table: Table,
    lock: Seq<char>,
    client: Seq<char>,
    lease: Seq<char>,
    ttl: nat,
    now: int,
)
    requires
        table.contains_key(lock),
        held_by(table[lock], client, lease),
        table[lock].holder.unwrap().expires_at < now,
    ensures
        renew(table, lock, client, lease, ttl, now) == (table, RenewOutcome::Expired),
{
}

/// An attempt to renew a lease that the caller does not hold is answered
/// `NotHolder` and changes nothing.
pub proof fn lemma_renew_by_other_changes_nothing(
    table: Table,
    lock: Seq<char>,
    client: Seq<char>,
    lease: Seq<char>,
    ttl: nat,
    now: int,
)
    requires
        table.contains_key(lock),
        !held_by(table[lock], client, lease),
    ensures
        renew(table, lock, client, lease, ttl, now) == (table, RenewOutcome::NotHolder),
{
}

/// When the holder renews its lease before it has run out, the lease runs
/// until `ttl` seconds after `now` and has been renewed once more; holder,
/// lease name and queue stay. That is later than the lease ran before
/// exactly if `ttl` seconds from `now` reach beyond its old end. This holds
/// unless the lease would end after the last instant that a timestamp can
/// name, or has been renewed as often as its counter can count.
pub proof fn lemma_renew_extends(
    table: Table,
    lock: Seq<char>,
    client: Seq<char>,
    lease: Seq<char>,
    ttl: nat,
    now: int,
)
    requires
        table.contains_key(lock),
        held_by(table[lock], client, lease),
        now <= table[lock].holder.unwrap().expires_at,
        in_range(after_secs(now, ttl as int)),
        table[lock].holder.unwrap().renewal_count < u32::MAX,
    ensures
        renew(table, lock, client, lease, ttl, now).1 == (RenewOutcome::Success {
            new_expiry: after_secs(now, ttl as int),
        }),
        ({
            let before = table[lock].holder.unwrap();
            let after = renew(table, lock, client, lease, ttl, now).0;
            &&& after.contains_key(lock)
            &&& held_by(after[lock], client, lease)
            &&& after[lock].holder.unwrap().expires_at == after_secs(now, ttl as int)
            &&& after[lock].holder.unwrap().renewal_count == before.renewal_count + 1
            &&& after[lock].holder.unwrap().renewal_count > before.renewal_count
            &&& after[lock].holder.unwrap().acquired_at == before.acquired_at
            &&& after[lock].wait_queue == table[lock].wait_queue
            &&& after_secs(now, ttl as int) > before.expires_at
                ==> after[lock].holder.unwrap().expires_at > before.expires_at
        }),
{
}

/// The only error that asking for a lock can be answered with is that the
/// lease would end out of range, and then nothing changes.
pub proof fn lemma_acquire_error_changes_nothing(
    table: Table,
    lock: Seq<char>,
    client: Seq<char>,
    ttl: nat,
    now: int,
    lease: Seq<char>,
)
    requires
        acquire(table, lock, client, ttl, now, lease).1 is Error,
    ensures
        acquire(table, lock, client, ttl, now, lease) == (
            table,
            AcquireOutcome::Error(ttl_too_large()),
        ),
        !in_range(after_secs(now, ttl as int)),
{
}

} // verus!
