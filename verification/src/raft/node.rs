//! What a node decides: whether to take a proposal, and what becomes of the
//! lock table and of the waiting callers when an entry of the log is
//! applied.
//!
//! The node does no input or output. It is told who leads, it is handed the
//! proposals and the entries that the replicas have agreed on, and it
//! answers with what is to be done: an entry to append, an answer to deliver.

use crate::lock::manager::{InMemoryLockManager, DEFAULT_TTL_SECS};
use crate::lock::rules::Table;
use crate::lock::types::{ClientId, LeaseId, LockId, LockStateView};
use crate::raft::correlator::{aborted_each, aborted_reply, Delivery, RequestCorrelator};
use crate::raft::raft_commands::{
    apply, replay, CommandResponse, LockCommand, Proposal, ProposalView, ResponseView,
};
use vstd::prelude::*;

verus! {

/// The ticks without word from a leader after which a node stands for
/// election.
pub const ELECTION_TICK: usize = 10;

/// The ticks between two heartbeats of a leader.
pub const HEARTBEAT_TICK: usize = 3;

/// The largest size in bytes of the entries sent in one message.
pub const MAX_SIZE_PER_MSG: u64 = 1_048_576;

/// The largest number of messages on their way to one peer.
pub const MAX_INFLIGHT_MSGS: usize = 256;

/// The milliseconds between two ticks.
pub const TICK_INTERVAL_MILLIS: u64 = 100;

/// How the consensus engine of a node is set up.
#[derive(Clone, Copy, Debug, PartialEq, Eq, Structural)]
pub struct NodeConfig {
    pub id: u64,
    pub election_tick: usize,
    pub heartbeat_tick: usize,
    pub max_size_per_msg: u64,
    pub max_inflight_msgs: usize,
}

/// One replica: its lock table, and the callers that wait on it for the
/// answers to their requests.
pub struct RaftNode<W> {
    id: u64,
    peers: Vec<u64>,
    state_machine: InMemoryLockManager,
    pending: RequestCorrelator<W>,
}

/// What a node decides about a proposal that it is handed.
pub enum Submission<W> {
    /// The node leads. The proposal is to be appended to the log; its caller
    /// waits. `displaced` is a caller that waited under the same request
    /// number and will get no answer.
    Accepted { proposal: Proposal, displaced: Option<W> },
    /// The node does not lead. Nothing is to be appended; the caller is to be
    /// given the answer that says so. `leader_id` is the number of the node
    /// that leads, for the caller to turn to, or 0 if none is known.
    Rejected { delivery: Delivery<W>, leader_id: u64 },
}

/// The response that tells a caller that the node it asked does not lead.
pub open spec fn not_leader_reply() -> ResponseView {
    ResponseView::Error { error_type: "NotLeader"@, message: "Not the leader"@ }
}

/// The reason given to callers whose requests are given up because the node
/// leads no longer.
pub open spec fn leadership_lost() -> Seq<char> {
    "leadership lost"@
}

/// The views of the entries of a log, in the log's order.
pub open spec fn log_view(entries: Seq<Proposal>) -> Seq<ProposalView> {
    Seq::new(entries.len(), |i: int| entries[i]@)
}

/// The callers that still wait after the entries of `log` have been
/// applied: those of `pending` whose request is none of them.
pub open spec fn still_pending<W>(pending: Map<u64, W>, log: Seq<ProposalView>) -> Map<u64, W>
    decreases log.len(),
{
    if log.len() == 0 {
        pending
    } else {
        still_pending(pending, log.drop_last()).remove(log.last().command.request_id())
    }
}

/// The answers that come due as the entries of `log` are applied in order,
/// each with the caller that waited for it. An entry that nobody waits for
/// gives none.
pub open spec fn answers_due<W>(
    table: Table,
    default_ttl: nat,
    pending: Map<u64, W>,
    log: Seq<ProposalView>,
) -> Seq<(W, ResponseView)>
    decreases log.len(),
{
    if log.len() == 0 {
        Seq::empty()
    } else {
        let earlier = log.drop_last();
        let due = answers_due(table, default_ttl, pending, earlier);
        let waiting = still_pending(pending, earlier);
        let request_id = log.last().command.request_id();
        if waiting.contains_key(request_id) {
            due.push(
                (
                    waiting[request_id],
                    apply(replay(table, default_ttl, earlier), default_ttl, log.last()).1,
                ),
            )
        } else {
            due
        }
    }
}

/// The callers and answers of `deliveries`, in their order.
pub open spec fn deliveries_view<W>(deliveries: Seq<Delivery<W>>) -> Seq<(W, ResponseView)> {
    Seq::new(deliveries.len(), |i: int| (deliveries[i].waiter, deliveries[i].response@))
}

impl<W> RaftNode<W> {
    /// The number of this node.
    pub closed spec fn spec_id(&self) -> u64 {
        self.id
    }

    /// The numbers of the other nodes of the cluster.
    pub closed spec fn spec_peers(&self) -> Seq<u64> {
        self.peers@
    }

    /// The lock table of this replica.
    pub closed spec fn table(&self) -> Table {
        self.state_machine@
    }

    /// The seconds for which this replica grants a lock to a client that
    /// waited for it.
    pub closed spec fn default_ttl(&self) -> nat {
        self.state_machine.spec_default_ttl() as nat
    }

    /// The callers that wait for an answer, by the number of their request.
    pub closed spec fn pending(&self) -> Map<u64, W> {
        self.pending@
    }

    /// Whether `self` and `other` are the same node with the same lock
    /// table, whoever waits.
    pub open spec fn same_replica(&self, other: &Self) -> bool {
        &&& self.spec_id() == other.spec_id()
        &&& self.spec_peers() == other.spec_peers()
        &&& self.default_ttl() == other.default_ttl()
        &&& self.table() == other.table()
    }

    /// Node `id` of a cluster whose other nodes are `peers`, with an empty
    /// lock table and nobody waiting.
    pub fn new(id: u64, peers: Vec<u64>) -> (node: Self)
        ensures
            node.spec_id() == id,
            node.spec_peers() == peers@,
            node.table() == Map::<Seq<char>, LockStateView>::empty(),
            node.default_ttl() == DEFAULT_TTL_SECS,
            node.pending() == Map::<u64, W>::empty(),
    {
        RaftNode {
            id,
            peers,
            state_machine: InMemoryLockManager::new(),
            pending: RequestCorrelator::new(),
        }
    }

    /// The number of this node.
    pub fn id(&self) -> (id: u64)
        ensures
            id == self.spec_id(),
    {
        self.id
    }

    /// The numbers of the other nodes of the cluster.
    pub fn peers(&self) -> (peers: &Vec<u64>)
        ensures
            peers@ == self.spec_peers(),
    {
        &self.peers
    }

    /// The lock table of this replica, to read.
    pub fn state_machine(&self) -> (manager: &InMemoryLockManager)
        ensures
            manager@ == self.table(),
            manager.spec_default_ttl() == self.default_ttl(),
    {
        &self.state_machine
    }

    /// Whether a caller waits on this node for request `request_id`.
    pub fn is_pending(&self, request_id: u64) -> (pending: bool)
        ensures
            pending == self.pending().contains_key(request_id),
    {
        self.pending.is_pending(request_id)
    }

    /// How the consensus engine of this node is to be set up.
    pub fn config(&self) -> (config: NodeConfig)
        ensures
            config == (NodeConfig {
                id: self.spec_id(),
                election_tick: ELECTION_TICK,
                heartbeat_tick: HEARTBEAT_TICK,
                max_size_per_msg: MAX_SIZE_PER_MSG,
                max_inflight_msgs: MAX_INFLIGHT_MSGS,
            }),
    {
        NodeConfig {
            id: self.id,
            election_tick: ELECTION_TICK,
            heartbeat_tick: HEARTBEAT_TICK,
            max_size_per_msg: MAX_SIZE_PER_MSG,
            max_inflight_msgs: MAX_INFLIGHT_MSGS,
        }
    }

    /// Decides about a proposal whose caller is `waiter`, given the number
    /// `leader_id` of the node that leads.
    ///
    /// A node that leads notes the caller and hands the proposal back for
    /// the log. A node that does not lead notes nothing and has nothing
    /// appended: it hands the caller back with the answer `NotLeader`. The
    /// lock table changes in neither case.
    pub fn handle_command(&mut self, leader_id: u64, proposal: Proposal, waiter: W) -> (decision:
        Submission<W>)
        ensures
            final(self).same_replica(old(self)),
            leader_id != old(self).spec_id() ==> final(self).pending() == old(self).pending() && (
            decision matches Submission::Rejected { delivery, leader_id: leader }
                && delivery.waiter == waiter && delivery.response@ == not_leader_reply() && leader
                == leader_id),
            leader_id == old(self).spec_id() ==> final(self).pending() == old(
                self,
            ).pending().insert(proposal@.command.request_id(), waiter) && (
            decision matches Submission::Accepted { proposal: accepted, displaced } && accepted
                == proposal && displaced == (if old(self).pending().contains_key(
                proposal@.command.request_id(),
            ) {
                Some(old(self).pending()[proposal@.command.request_id()])
            } else {
                None
            })),
    {
        if leader_id != self.id {
            let response = CommandResponse::Error {
                error_type: "NotLeader".to_owned(),
                message: "Not the leader".to_owned(),
            };
            return Submission::Rejected { delivery: Delivery { waiter, response }, leader_id };
        }
        let request_id = proposal.command.request_id();
        let displaced = self.pending.register(request_id, waiter);
        Submission::Accepted { proposal, displaced }
    }

    /// Gives up request `request_id`, which could not be appended to the log
    /// for `reason`: its caller is handed out with the answer that says so,
    /// and waits no longer. If nobody waits for that request, nothing
    /// changes. The lock table does not change.
    pub fn abort_proposal(&mut self, request_id: u64, reason: String) -> (delivery: Option<
        Delivery<W>,
    >)
        ensures
            final(self).same_replica(old(self)),
            final(self).pending() == old(self).pending().remove(request_id),
            old(self).pending().contains_key(request_id) <==> delivery.is_some(),
            delivery matches Some(d) ==> d.waiter == old(self).pending()[request_id]
                && d.response@ == aborted_reply(reason@),
    {
        self.pending.abort(request_id, reason)
    }

    /// Takes note of who leads, given the number `leader_id` of the node that
    /// does. A node that does not lead will append nothing, so the answers
    /// that callers wait on it for will not come: each caller is handed out
    /// with the answer that the node leads no longer, in no fixed order, and
    /// nobody waits any more. A node that leads changes nothing. The lock
    /// table does not change.
    pub fn leadership_changed(&mut self, leader_id: u64) -> (deliveries: Vec<Delivery<W>>)
        ensures
            final(self).same_replica(old(self)),
            leader_id == old(self).spec_id() ==> final(self).pending() == old(self).pending()
                && deliveries@.len() == 0,
            leader_id != old(self).spec_id() ==> final(self).pending() == Map::<u64, W>::empty()
                && deliveries@.len() == old(self).pending().len() && exists|ids: Seq<u64>|
                aborted_each(old(self).pending(), deliveries@, ids, leadership_lost()),
    {
        if leader_id == self.id {
            return Vec::new();
        }
        let reason = "leadership lost".to_owned();
        let deliveries = self.pending.abort_all(&reason);
        proof {
            let ids = choose|ids: Seq<u64>|
                aborted_each(old(self).pending@, deliveries@, ids, reason@);
            assert(aborted_each(old(self).pending(), deliveries@, ids, leadership_lost()));
        }
        deliveries
    }

    /// Applies an entry of the log to the lock table and says what is to be
    /// answered. Who waits does not change.
    pub fn apply_command_to_state(&mut self, proposal: &Proposal) -> (response: CommandResponse)
        ensures
            final(self).spec_id() == old(self).spec_id(),
            final(self).spec_peers() == old(self).spec_peers(),
            final(self).default_ttl() == old(self).default_ttl(),
            final(self).pending() == old(self).pending(),
            (final(self).table(), response@) == apply(
                old(self).table(),
                old(self).default_ttl(),
                proposal@,
            ),
    {
        match &proposal.command {
            LockCommand::Acquire { lock_id, client_id, ttl_seconds, .. } => {
                let result = self.state_machine.try_acquire_at(
                    &LockId(lock_id.clone()),
                    &ClientId(client_id.clone()),
                    *ttl_seconds,
                    proposal.proposed_at,
                    proposal.lease_token.clone(),
                );
                CommandResponse::from_acquire(result)
            },
            LockCommand::Release { lock_id, client_id, lease_id, .. } => {
                let result = self.state_machine.release_at(
                    &LockId(lock_id.clone()),
                    &ClientId(client_id.clone()),
                    &LeaseId(lease_id.clone()),
                    proposal.proposed_at,
                    proposal.lease_token.clone(),
                );
                CommandResponse::from_release(result)
            },
            LockCommand::Renew { lock_id, client_id, ttl_seconds, lease_id, .. } => {
                let result = self.state_machine.renew_at(
                    &LockId(lock_id.clone()),
                    &ClientId(client_id.clone()),
                    &LeaseId(lease_id.clone()),
                    *ttl_seconds,
                    proposal.proposed_at,
                );
                CommandResponse::from_renew(result)
            },
        }
    }

    /// Applies an entry that the replicas have agreed on: the lock table
    /// changes as the entry says, and the caller that waits for the entry's
    /// request is handed out with the answer, and waits no longer. If nobody
    /// waits for it, the entry is applied all the same and the answer is
    /// dropped.
    pub fn apply_entry(&mut self, proposal: &Proposal) -> (delivery: Option<Delivery<W>>)
        ensures
            final(self).spec_id() == old(self).spec_id(),
            final(self).spec_peers() == old(self).spec_peers(),
            final(self).default_ttl() == old(self).default_ttl(),
            final(self).table() == apply(old(self).table(), old(self).default_ttl(), proposal@).0,
            final(self).pending() == old(self).pending().remove(proposal@.command.request_id()),
            old(self).pending().contains_key(proposal@.command.request_id())
                <==> delivery.is_some(),
            delivery matches Some(d) ==> d.waiter == old(self).pending()[
                proposal@.command.request_id()
            ] && d.response@ == apply(old(self).table(), old(self).default_ttl(), proposal@).1,
    {
        let request_id = proposal.command.request_id();
        let response = self.apply_command_to_state(proposal);
        self.pending.resolve(request_id, response)
    }

    /// Applies the entries that the replicas have agreed on, in the order of
    /// the log, and hands out the answers that have come due, in the same
    /// order.
    pub fn apply_committed(&mut self, entries: &Vec<Proposal>) -> (deliveries: Vec<Delivery<W>>)
        ensures
            final(self).spec_id() == old(self).spec_id(),
            final(self).spec_peers() == old(self).spec_peers(),
            final(self).default_ttl() == old(self).default_ttl(),
            final(self).table() == replay(
                old(self).table(),
                old(self).default_ttl(),
                log_view(entries@),
            ),
            final(self).pending() == still_pending(old(self).pending(), log_view(entries@)),
            deliveries_view(deliveries@) == answers_due(
                old(self).table(),
                old(self).default_ttl(),
                old(self).pending(),
                log_view(entries@),
            ),
    {
        let ghost table = self.table();
        let ghost default_ttl = self.default_ttl();
        let ghost pending = self.pending();
        let ghost id = self.spec_id();
        let ghost peers = self.spec_peers();
        let ghost log = log_view(entries@);
        let mut deliveries: Vec<Delivery<W>> = Vec::new();
        let mut i: usize = 0;
        assert(deliveries_view(deliveries@) =~= answers_due(table, default_ttl, pending, log.take(0)));
        while i < entries.len()
            invariant
                i <= entries.len(),
                log == log_view(entries@),
                self.spec_id() == id,
                self.spec_peers() == peers,
                self.default_ttl() == default_ttl,
                self.table() == replay(table, default_ttl, log.take(i as int)),
                self.pending() == still_pending(pending, log.take(i as int)),
                deliveries_view(deliveries@) == answers_due(
                    table,
                    default_ttl,
                    pending,
                    log.take(i as int),
                ),
            decreases entries.len() - i,
        {
            proof {
                assert(log.take(i + 1).drop_last() =~= log.take(i as int));
                assert(log.take(i + 1).last() == entries[i as int]@);
            }
            let ghost before = deliveries_view(deliveries@);
            match self.apply_entry(&entries[i]) {
                Some(delivery) => {
                    deliveries.push(delivery);
                    assert(deliveries_view(deliveries@) =~= before.push(
                        (delivery.waiter, delivery.response@),
                    ));
                },
                None => {},
            }
            i += 1;
        }
        proof {
            assert(log.take(entries.len() as int) =~= log);
        }
        deliveries
    }
}

} // verus!