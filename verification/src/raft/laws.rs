//! What holds of a log of proposals, whatever it holds.

use crate::lock::laws::lemma_one_holder;
use crate::lock::rules::{held_by, Table};
use crate::raft::node::still_pending;
use crate::raft::raft_commands::{apply, replay, replies, ProposalView};
use vstd::prelude::*;

verus! {

/// Two replicas that start from the same table, grant waiting clients the
/// same number of seconds and apply the same log in the same order end with
/// the same table, and give the same answers on the way.
pub proof fn lemma_replicas_agree(
    table_a: Table,
    table_b: Table,
    default_ttl_a: nat,
    default_ttl_b: nat,
    log_a: Seq<ProposalView>,
    log_b: Seq<ProposalView>,
)
    requires
        table_a == table_b,
        default_ttl_a == default_ttl_b,
        log_a == log_b,
    ensures
        replay(table_a, default_ttl_a, log_a) == replay(table_b, default_ttl_b, log_b),
        replies(table_a, default_ttl_a, log_a) == replies(table_b, default_ttl_b, log_b),
{
}

/// Applying one more entry is applying the log so far and then that entry.
pub proof fn lemma_replay_one_more(
    table: Table,
    default_ttl: nat,
    log: Seq<ProposalView>,
    entry: ProposalView,
)
    ensures
        replay(table, default_ttl, log.push(entry)) == apply(
            replay(table, default_ttl, log),
            default_ttl,
            entry,
        ).0,
        replies(table, default_ttl, log.push(entry)) == replies(table, default_ttl, log).push(
            apply(replay(table, default_ttl, log), default_ttl, entry).1,
        ),
{
    assert(log.push(entry).drop_last() =~= log);
    assert(log.push(entry).last() == entry);
}

/// A log may be applied in two parts: the table after the whole log is the
/// table after the second part, applied to the table after the first. A
/// replica that is behind catches up by applying what it lacks.
pub proof fn lemma_replay_in_parts(
    table: Table,
    default_ttl: nat,
    first: Seq<ProposalView>,
    second: Seq<ProposalView>,
)
    ensures
        replay(table, default_ttl, first + second) == replay(
            replay(table, default_ttl, first),
            default_ttl,
            second,
        ),
    decreases second.len(),
{
    if second.len() == 0 {
        assert(first + second =~= first);
    } else {
        lemma_replay_in_parts(table, default_ttl, first, second.drop_last());
        assert((first + second).drop_last() =~= first + second.drop_last());
        assert((first + second).last() == second.last());
    }
}

/// Every answer has as many entries of the log behind it: a log of `n`
/// entries gives `n` answers.
pub proof fn lemma_one_reply_per_entry(table: Table, default_ttl: nat, log: Seq<ProposalView>)
    ensures
        replies(table, default_ttl, log).len() == log.len(),
    decreases log.len(),
{
    if log.len() > 0 {
        lemma_one_reply_per_entry(table, default_ttl, log.drop_last());
    }
}

/// Whatever log of requests has been applied, and however far, a lock has at
/// most one holder: two clients that both hold it, each under a lease, are
/// one client under one lease.
pub proof fn lemma_one_holder_always(
    table: Table,
    default_ttl: nat,
    log: Seq<ProposalView>,
    applied: int,
    lock: Seq<char>,
    client_a: Seq<char>,
    lease_a: Seq<char>,
    client_b: Seq<char>,
    lease_b: Seq<char>,
)
    requires
        0 <= applied <= log.len(),
        replay(table, default_ttl, log.take(applied)).contains_key(lock),
        held_by(replay(table, default_ttl, log.take(applied))[lock], client_a, lease_a),
        held_by(replay(table, default_ttl, log.take(applied))[lock], client_b, lease_b),
    ensures
        client_a == client_b,
        lease_a == lease_b,
{
    lemma_one_holder(
        replay(table, default_ttl, log.take(applied)),
        lock,
        client_a,
        lease_a,
        client_b,
        lease_b,
    );
}

/// A request is answered at most once: once the entries of a log have been
/// applied, nobody waits any longer for a request that is among them.
pub proof fn lemma_answered_once<W>(pending: Map<u64, W>, log: Seq<ProposalView>, i: int)
    requires
        0 <= i < log.len(),
    ensures
        !still_pending(pending, log).contains_key(log[i].command.request_id()),
    decreases log.len(),
{
    if i < log.len() - 1 {
        lemma_answered_once(pending, log.drop_last(), i);
    }
}

/// Applying a log brings nobody new to wait: whoever waits afterwards waited
/// before, for the same request.
pub proof fn lemma_nobody_new_waits<W>(pending: Map<u64, W>, log: Seq<ProposalView>, id: u64)
    requires
        still_pending(pending, log).contains_key(id),
    ensures
        pending.contains_key(id),
        still_pending(pending, log)[id] == pending[id],
    decreases log.len(),
{
    if log.len() > 0 {
        lemma_nobody_new_waits(pending, log.drop_last(), id);
    }
}

} // verus!
