//! Who waits for the answer to which request.

use crate::raft::raft_commands::{CommandResponse, ResponseView};
use std::collections::HashMap;
use vstd::prelude::*;
use vstd::std_specs::iter::IteratorSpec;

verus! {

broadcast use vstd::std_specs::hash::group_hash_axioms;

/// The callers that wait for an answer, each under the number of its
/// request. A caller is handed out once, with its answer, and is then
/// forgotten.
///
/// `W` is whatever the caller is reached through; the correlator keeps it and
/// hands it back, and never looks inside.
pub struct RequestCorrelator<W> {
    waiting: HashMap<u64, W>,
}

/// An answer, and the caller to give it to.
pub struct Delivery<W> {
    pub waiter: W,
    pub response: CommandResponse,
}

/// The response that tells a caller that its request was given up before it
/// was agreed on.
pub open spec fn aborted_reply(reason: Seq<char>) -> ResponseView {
    ResponseView::Error { error_type: "ProposalAborted"@, message: reason }
}

/// Whether `deliveries` hand out every caller of `pending` once, each with
/// the answer that its request was given up for `reason`; `ids` are the
/// numbers of their requests, in the order of the deliveries.
pub open spec fn aborted_each<W>(
    pending: Map<u64, W>,
    deliveries: Seq<Delivery<W>>,
    ids: Seq<u64>,
    reason: Seq<char>,
) -> bool {
    &&& ids.no_duplicates()
    &&& ids.to_set() == pending.dom()
    &&& deliveries.len() == ids.len()
    &&& forall|i: int|
        0 <= i < ids.len() ==> (#[trigger] deliveries[i]).waiter == pending[ids[i]]
            && deliveries[i].response@ == aborted_reply(reason)
}

impl<W> View for RequestCorrelator<W> {
    type V = Map<u64, W>;

    closed spec fn view(&self) -> Map<u64, W> {
        self.waiting@
    }
}

impl<W> RequestCorrelator<W> {
    /// A correlator in which nobody waits.
    pub fn new() -> (correlator: Self)
        ensures
            correlator@ == Map::<u64, W>::empty(),
    {
        RequestCorrelator { waiting: HashMap::new() }
    }

    /// Notes that `waiter` waits for the answer to request `request_id`. A
    /// caller that waited under the same number is handed back: it will get
    /// no answer from here.
    pub fn register(&mut self, request_id: u64, waiter: W) -> (displaced: Option<W>)
        ensures
            final(self)@ == old(self)@.insert(request_id, waiter),
            displaced == (if old(self)@.contains_key(request_id) {
                Some(old(self)@[request_id])
            } else {
                None
            }),
    {
        self.waiting.insert(request_id, waiter)
    }

    /// Hands out the caller that waits for request `request_id`, with
    /// `response` as its answer, and forgets it. If nobody waits for that
    /// request, nothing changes and the response is dropped.
    pub fn resolve(&mut self, request_id: u64, response: CommandResponse) -> (delivery: Option<
        Delivery<W>,
    >)
        ensures
            final(self)@ == old(self)@.remove(request_id),
            !final(self)@.contains_key(request_id),
            old(self)@.contains_key(request_id) <==> delivery.is_some(),
            delivery matches Some(d) ==> d.waiter == old(self)@[request_id] && d.response
                == response,
    {
        match self.waiting.remove(&request_id) {
            Some(waiter) => Some(Delivery { waiter, response }),
            None => None,
        }
    }

    /// Hands out the caller that waits for request `request_id`, with the
    /// answer that its request was given up for `reason`, and forgets it. If
    /// nobody waits for that request, nothing changes.
    pub fn abort(&mut self, request_id: u64, reason: String) -> (delivery: Option<Delivery<W>>)
        ensures
            final(self)@ == old(self)@.remove(request_id),
            !final(self)@.contains_key(request_id),
            old(self)@.contains_key(request_id) <==> delivery.is_some(),
            delivery matches Some(d) ==> d.waiter == old(self)@[request_id] && d.response@
                == aborted_reply(reason@),
    {
        let response = CommandResponse::Error {
            error_type: "ProposalAborted".to_owned(),
            message: reason,
        };
        self.resolve(request_id, response)
    }

    /// The numbers of the requests that callers wait for, each once, in no
    /// particular order.
    pub fn pending_ids(&self) -> (ids: Vec<u64>)
        ensures
            ids@.to_set() == self@.dom(),
            ids@.no_duplicates(),
    {
        let mut ids: Vec<u64> = Vec::new();
        let ghost all = self.waiting.keys().remaining().unref();
        for key in keys: self.waiting.keys()
            invariant
                all == keys.seq().unref(),
                all.to_set() == self@.dom(),
                all.no_duplicates(),
                ids@ == all.take(keys.index() as int),
        {
            ids.push(*key);
        }
        assert(all.take(all.len() as int) =~= all);
        ids
    }

    /// Hands out every caller that waits, each with the answer that its
    /// request was given up for `reason`, and forgets them all. The order in
    /// which they are handed out is not fixed.
    pub fn abort_all(&mut self, reason: &String) -> (deliveries: Vec<Delivery<W>>)
        ensures
            final(self)@ == Map::<u64, W>::empty(),
            deliveries@.len() == old(self)@.len(),
            exists|ids: Seq<u64>| aborted_each(old(self)@, deliveries@, ids, reason@),
    {
        let ghost before = self@;
        let ids = self.pending_ids();
        let mut deliveries: Vec<Delivery<W>> = Vec::new();
        let mut i: usize = 0;
        while i < ids.len()
            invariant
                i <= ids.len(),
                ids@.no_duplicates(),
                ids@.to_set() == before.dom(),
                forall|k: u64|
                    self@.contains_key(k) <==> before.contains_key(k) && !ids@.take(
                        i as int,
                    ).contains(k),
                forall|k: u64| self@.contains_key(k) ==> self@[k] == before[k],
                deliveries.len() == i,
                forall|j: int|
                    0 <= j < i ==> (#[trigger] deliveries[j]).waiter == before[ids[j]]
                        && deliveries[j].response@ == aborted_reply(reason@),
            decreases ids.len() - i,
        {
            let id = ids[i];
            let ghost earlier = ids@.take(i as int);
            let ghost upto = ids@.take(i + 1);
            let ghost waiting = self@;
            proof {
                assert(ids@.to_set().contains(id));
                assert(!earlier.contains(id)) by {
                    if earlier.contains(id) {
                        let j = choose|j: int| 0 <= j < earlier.len() && earlier[j] == id;
                        assert(ids@[j] == ids@[i as int]);
                    }
                }
                assert(upto =~= earlier.push(id));
                assert forall|k: u64| upto.contains(k) <==> earlier.contains(k) || k == id by {
                    if earlier.contains(k) {
                        let j = choose|j: int| 0 <= j < earlier.len() && earlier[j] == k;
                        assert(upto[j] == k);
                    }
                    if k == id {
                        assert(upto[earlier.len() as int] == k);
                    }
                }
            }
            match self.abort(id, reason.clone()) {
                Some(delivery) => {
                    deliveries.push(delivery);
                },
                None => {},
            }
            assert forall|k: u64|
                self@.contains_key(k) <==> before.contains_key(k) && !upto.contains(k) by {
                assert(self@.contains_key(k) <==> waiting.contains_key(k) && k != id);
                assert(waiting.contains_key(k) <==> before.contains_key(k) && !earlier.contains(k));
            }
            i += 1;
        }
        proof {
            assert(ids@.take(ids.len() as int) =~= ids@);
            assert(self@ =~= Map::<u64, W>::empty()) by {
                assert forall|k: u64| !self@.contains_key(k) by {
                    if before.contains_key(k) {
                        assert(ids@.to_set().contains(k));
                    }
                }
            }
            assert(aborted_each(before, deliveries@, ids@, reason@));
            ids@.unique_seq_to_set();
        }
        deliveries
    }

    /// Whether a caller waits for request `request_id`.
    pub fn is_pending(&self, request_id: u64) -> (pending: bool)
        ensures
            pending == self@.contains_key(request_id),
    {
        self.waiting.contains_key(&request_id)
    }

    /// The number of callers that wait.
    pub fn pending_count(&self) -> (count: usize)
        ensures
            count == self@.len(),
    {
        self.waiting.len()
    }
}

} // verus!
