//! A lock table held in memory.

use crate::lock::rules;
use crate::lock::rules::Table;
use crate::lock::types::{
    acquired_at, released_at, renewed_at, AcquireResult, ClientId, LeaseId, LockHolder, LockId,
    LockManager, LockState, LockStateView, ReleaseResult, RenewResult, WaitRequest,
};
use crate::time::Timestamp;
use vstd::prelude::*;

verus! {

/// The seconds for which a lock is granted to a client that waited for it,
/// unless the table was made with another number.
pub const DEFAULT_TTL_SECS: u64 = 30;

/// One lock of the table, under its name.
struct LockEntry {
    id: LockId,
    state: LockState,
}

/// A lock table held in memory. No lock is recorded twice.
pub struct InMemoryLockManager {
    locks: Vec<LockEntry>,
    default_ttl: u64,
}

/// Whether no two entries have the same name.
spec fn distinct_names(entries: Seq<LockEntry>) -> bool {
    forall|i: int, j: int|
        0 <= i < j < entries.len() ==> (#[trigger] entries[i]).id@ != (#[trigger] entries[j]).id@
}

/// Whether some entry has the name `name`.
spec fn has_name(entries: Seq<LockEntry>, name: Seq<char>) -> bool {
    exists|i: int| 0 <= i < entries.len() && (#[trigger] entries[i]).id@ == name
}

/// The place of an entry with the name `name`.
spec fn place_of(entries: Seq<LockEntry>, name: Seq<char>) -> int {
    choose|i: int| 0 <= i < entries.len() && (#[trigger] entries[i]).id@ == name
}

/// The table that the entries stand for.
spec fn table_of(entries: Seq<LockEntry>) -> Table {
    Map::new(
        |name: Seq<char>| has_name(entries, name),
        |name: Seq<char>| entries[place_of(entries, name)].state@,
    )
}

/// With distinct names, the entry at `i` is the one that the table has under
/// its name.
proof fn lemma_entry_in_table(entries: Seq<LockEntry>, i: int)
    requires
        distinct_names(entries),
        0 <= i < entries.len(),
    ensures
        table_of(entries).contains_key(entries[i].id@),
        table_of(entries)[entries[i].id@] == entries[i].state@,
{
    let name = entries[i].id@;
    assert(has_name(entries, name));
    let p = place_of(entries, name);
    assert(0 <= p < entries.len() && entries[p].id@ == name);
    if p < i {
        assert(entries[p].id@ != entries[i].id@);
    } else if i < p {
        assert(entries[i].id@ != entries[p].id@);
    }
}

/// Replacing the record of the entry at `i` replaces it in the table.
proof fn lemma_update_entry(entries: Seq<LockEntry>, i: int, entry: LockEntry)
    requires
        distinct_names(entries),
        0 <= i < entries.len(),
        entry.id@ == entries[i].id@,
    ensures
        distinct_names(entries.update(i, entry)),
        table_of(entries.update(i, entry)) == table_of(entries).insert(entry.id@, entry.state@),
{
    let after = entries.update(i, entry);
    assert forall|a: int, b: int| 0 <= a < b < after.len() implies (#[trigger] after[a]).id@ != (
    #[trigger] after[b]).id@ by {
        assert(after[a].id@ == entries[a].id@);
        assert(after[b].id@ == entries[b].id@);
    }
    assert forall|name: Seq<char>| has_name(after, name) == has_name(entries, name) by {
        if has_name(entries, name) {
            let p = place_of(entries, name);
            assert(after[p].id@ == name);
        }
        if has_name(after, name) {
            let p = place_of(after, name);
            assert(entries[p].id@ == name);
        }
    }
    let expected = table_of(entries).insert(entry.id@, entry.state@);
    assert forall|name: Seq<char>| table_of(after).contains_key(name) implies table_of(after)[name]
        == expected[name] by {
        let p = place_of(after, name);
        assert(0 <= p < after.len() && after[p].id@ == name);
        lemma_entry_in_table(after, p);
        if p != i {
            assert(entries[p].id@ == name);
            lemma_entry_in_table(entries, p);
        }
    }
    lemma_entry_in_table(entries, i);
    assert(table_of(after) =~= expected);
}

/// Adding an entry under a name that no entry has adds it to the table.
proof fn lemma_push_entry(entries: Seq<LockEntry>, entry: LockEntry)
    requires
        distinct_names(entries),
        !has_name(entries, entry.id@),
    ensures
        distinct_names(entries.push(entry)),
        table_of(entries.push(entry)) == table_of(entries).insert(entry.id@, entry.state@),
{
    let after = entries.push(entry);
    let last = entries.len() as int;
    assert forall|a: int, b: int| 0 <= a < b < after.len() implies (#[trigger] after[a]).id@ != (
    #[trigger] after[b]).id@ by {
        assert(after[a] == entries[a]);
        if b < last {
            assert(after[b] == entries[b]);
        } else {
            assert(entries[a].id@ != entry.id@);
        }
    }
    assert forall|name: Seq<char>|
        has_name(after, name) == (has_name(entries, name) || name == entry.id@) by {
        if has_name(entries, name) {
            let p = place_of(entries, name);
            assert(after[p].id@ == name);
        }
        if name == entry.id@ {
            assert(after[last].id@ == name);
        }
        if has_name(after, name) {
            let p = place_of(after, name);
            if p < last {
                assert(entries[p].id@ == name);
            }
        }
    }
    let expected = table_of(entries).insert(entry.id@, entry.state@);
    assert forall|name: Seq<char>| table_of(after).contains_key(name) implies table_of(after)[name]
        == expected[name] by {
        let p = place_of(after, name);
        assert(0 <= p < after.len() && after[p].id@ == name);
        lemma_entry_in_table(after, p);
        if p < last {
            assert(entries[p].id@ == name);
            lemma_entry_in_table(entries, p);
        }
    }
    assert(table_of(after) =~= expected);
}

impl View for InMemoryLockManager {
    type V = Table;

    closed spec fn view(&self) -> Table {
        table_of(self.locks@)
    }
}

impl InMemoryLockManager {
    #[verifier::type_invariant]
    spec fn no_lock_twice(self) -> bool {
        distinct_names(self.locks@)
    }

    /// The seconds for which a lock is granted to a client that waited for
    /// it.
    pub closed spec fn spec_default_ttl(&self) -> u64 {
        self.default_ttl
    }

    /// An empty table that grants waiting clients [`DEFAULT_TTL_SECS`]
    /// seconds.
    pub fn new() -> (manager: Self)
        ensures
            manager@ == Map::<Seq<char>, LockStateView>::empty(),
            manager.spec_default_ttl() == DEFAULT_TTL_SECS,
    {
        let manager = InMemoryLockManager { locks: Vec::new(), default_ttl: DEFAULT_TTL_SECS };
        assert(manager@ =~= Map::empty());
        manager
    }

    /// An empty table that grants waiting clients `ttl` seconds.
    pub fn with_default_ttl(ttl: u64) -> (manager: Self)
        ensures
            manager@ == Map::<Seq<char>, LockStateView>::empty(),
            manager.spec_default_ttl() == ttl,
    {
        let manager = InMemoryLockManager { locks: Vec::new(), default_ttl: ttl };
        assert(manager@ =~= Map::empty());
        manager
    }

    /// The seconds for which a lock is granted to a client that waited for
    /// it.
    #[verifier::when_used_as_spec(spec_default_ttl)]
    pub fn default_ttl(&self) -> (ttl: u64)
        ensures
            ttl == self.spec_default_ttl(),
    {
        self.default_ttl
    }

    /// `client_id` asks for the lock at `now`, for `ttl` seconds; `lease_id`
    /// names the lease if the lock is granted.
    pub fn try_acquire_at(
        &mut self,
        lock_id: &LockId,
        client_id: &ClientId,
        ttl: u64,
        now: Timestamp,
        lease_id: LeaseId,
    ) -> (result: AcquireResult)
        ensures
            final(self).spec_default_ttl() == old(self).spec_default_ttl(),
            (final(self)@, result@) == rules::acquire(
                old(self)@,
                lock_id@,
                client_id@,
                ttl as nat,
                now@,
                lease_id@,
            ),
    {
        proof {
            use_type_invariant(&*self);
        }
        let mut locks = Vec::new();
        std::mem::swap(&mut locks, &mut self.locks);
        let result = acquire_in(&mut locks, lock_id, client_id, ttl, now, lease_id);
        self.locks = locks;
        result
    }

    /// `client_id` gives the lock back at `now`, naming the lease it holds
    /// it under; `next_lease` names the lease of the client that takes the
    /// lock over, if one waits.
    pub fn release_at(
        &mut self,
        lock_id: &LockId,
        client_id: &ClientId,
        lease_id: &LeaseId,
        now: Timestamp,
        next_lease: LeaseId,
    ) -> (result: ReleaseResult)
        ensures
            final(self).spec_default_ttl() == old(self).spec_default_ttl(),
            (final(self)@, result@) == rules::release(
                old(self)@,
                lock_id@,
                client_id@,
                lease_id@,
                old(self).spec_default_ttl() as nat,
                now@,
                next_lease@,
            ),
    {
        proof {
            use_type_invariant(&*self);
        }
        let mut locks = Vec::new();
        std::mem::swap(&mut locks, &mut self.locks);
        let result = release_in(
            &mut locks,
            lock_id,
            client_id,
            lease_id,
            self.default_ttl,
            now,
            next_lease,
        );
        self.locks = locks;
        result
    }

    /// `client_id` asks at `now` that the lease it holds the lock under run
    /// for `ttl` seconds from `now`.
    pub fn renew_at(
        &mut self,
        lock_id: &LockId,
        client_id: &ClientId,
        lease_id: &LeaseId,
        ttl: u64,
        now: Timestamp,
    ) -> (result: RenewResult)
        ensures
            final(self).spec_default_ttl() == old(self).spec_default_ttl(),
            (final(self)@, result@) == rules::renew(
                old(self)@,
                lock_id@,
                client_id@,
                lease_id@,
                ttl as nat,
                now@,
            ),
    {
        proof {
            use_type_invariant(&*self);
        }
        let mut locks = Vec::new();
        std::mem::swap(&mut locks, &mut self.locks);
        let result = renew_in(&mut locks, lock_id, client_id, lease_id, ttl, now);
        self.locks = locks;
        result
    }
}

impl LockManager for InMemoryLockManager {
    open spec fn table(&self) -> Table {
        self@
    }

    open spec fn promotion_ttl(&self) -> nat {
        self.spec_default_ttl() as nat
    }

    fn try_acquire(&mut self, lock_id: &LockId, client_id: &ClientId, ttl: u64) -> (result:
        AcquireResult) {
        let lease_id = LeaseId::fresh();
        match Timestamp::now() {
            None => AcquireResult::Error("clock out of range".to_owned()),
            Some(now) => {
                let ghost lease = lease_id@;
                let result = self.try_acquire_at(lock_id, client_id, ttl, now, lease_id);
                assert(acquired_at(
                    old(self).table(),
                    self.table(),
                    result@,
                    lock_id@,
                    client_id@,
                    ttl as nat,
                    now@,
                    lease,
                ));
                result
            },
        }
    }

    fn release(&mut self, lock_id: &LockId, client_id: &ClientId, lease_id: &LeaseId) -> (result:
        ReleaseResult) {
        let next_lease = LeaseId::fresh();
        match Timestamp::now() {
            None => ReleaseResult::Error("clock out of range".to_owned()),
            Some(now) => {
                let ghost next = next_lease@;
                let result = self.release_at(lock_id, client_id, lease_id, now, next_lease);
                assert(released_at(
                    old(self).table(),
                    self.table(),
                    result@,
                    lock_id@,
                    client_id@,
                    lease_id@,
                    old(self).promotion_ttl(),
                    now@,
                    next,
                ));
                result
            },
        }
    }

    fn renew(&mut self, lock_id: &LockId, client_id: &ClientId, lease_id: &LeaseId, ttl: u64) -> (
        result: RenewResult) {
        match Timestamp::now() {
            None => RenewResult::Error("clock out of range".to_owned()),
            Some(now) => {
                let result = self.renew_at(lock_id, client_id, lease_id, ttl, now);
                assert(renewed_at(
                    old(self).table(),
                    self.table(),
                    result@,
                    lock_id@,
                    client_id@,
                    lease_id@,
                    ttl as nat,
                    now@,
                ));
                result
            },
        }
    }

    fn status(&self, lock_id: &LockId) -> (state: Option<LockState>) {
        proof {
            use_type_invariant(self);
        }
        match find(&self.locks, lock_id) {
            None => None,
            Some(i) => {
                proof {
                    lemma_entry_in_table(self.locks@, i as int);
                }
                Some(self.locks[i].state.clone())
            },
        }
    }

    fn current_holder(&self, lock_id: &LockId) -> (holder: Option<ClientId>) {
        proof {
            use_type_invariant(self);
        }
        match find(&self.locks, lock_id) {
            None => None,
            Some(i) => {
                proof {
                    lemma_entry_in_table(self.locks@, i as int);
                }
                match &self.locks[i].state.holder {
                    None => None,
                    Some(holder) => Some(holder.client_id.clone()),
                }
            },
        }
    }

    fn queue_length(&self, lock_id: &LockId) -> (length: usize) {
        proof {
            use_type_invariant(self);
        }
        match find(&self.locks, lock_id) {
            None => 0,
            Some(i) => {
                proof {
                    lemma_entry_in_table(self.locks@, i as int);
                }
                self.locks[i].state.wait_queue.len()
            },
        }
    }
}

/// [`rules::acquire`] on the entries of a table.
fn acquire_in(
    locks: &mut Vec<LockEntry>,
    lock_id: &LockId,
    client_id: &ClientId,
    ttl: u64,
    now: Timestamp,
    lease_id: LeaseId,
) -> (result: AcquireResult)
    requires
        distinct_names(old(locks)@),
    ensures
        distinct_names(final(locks)@),
        (table_of(final(locks)@), result@) == rules::acquire(
            table_of(old(locks)@),
            lock_id@,
            client_id@,
            ttl as nat,
            now@,
            lease_id@,
        ),
{
    let ghost before = locks@;
    match find(locks, lock_id) {
        None => {
            match now.checked_add_secs(ttl) {
                None => AcquireResult::Error("TTL too large".to_owned()),
                Some(expires_at) => {
                    let holder = LockHolder {
                        client_id: client_id.clone(),
                        lease_id: lease_id.clone(),
                        acquired_at: now,
                        expires_at,
                        renewal_count: 0,
                    };
                    let entry = LockEntry {
                        id: lock_id.clone(),
                        state: LockState {
                            holder: Some(holder),
                            wait_queue: Vec::new(),
                            created_at: now,
                        },
                    };
                    proof {
                        lemma_push_entry(before, entry);
                        assert(entry.state@.wait_queue =~= Seq::empty());
                    }
                    locks.push(entry);
                    AcquireResult::Granted { lease_id, expires_at }
                },
            }
        },
        Some(i) => {
            proof {
                lemma_entry_in_table(before, i as int);
            }
            let free = match &locks[i].state.holder {
                None => true,
                Some(holder) => holder.expires_at.is_before(&now),
            };
            if free {
                match now.checked_add_secs(ttl) {
                    None => AcquireResult::Error("TTL too large".to_owned()),
                    Some(expires_at) => {
                        let holder = LockHolder {
                            client_id: client_id.clone(),
                            lease_id: lease_id.clone(),
                            acquired_at: now,
                            expires_at,
                            renewal_count: 0,
                        };
                        let entry = &mut locks[i];
                        entry.state.holder = Some(holder);
                        proof {
                            lemma_update_entry(before, i as int, locks@[i as int]);
                        }
                        AcquireResult::Granted { lease_id, expires_at }
                    },
                }
            } else {
                let position = locks[i].state.wait_queue.len();
                let estimated_wait = match &locks[i].state.holder {
                    None => 0,
                    Some(holder) => holder.expires_at.secs_after(&now),
                };
                let waiting = WaitRequest { client_id: client_id.clone(), requested_at: now };
                let entry = &mut locks[i];
                entry.state.wait_queue.push(waiting);
                proof {
                    lemma_update_entry(before, i as int, locks@[i as int]);
                    assert(locks@[i as int].state@.wait_queue =~= before[i as int].state@.wait_queue.push(
                        waiting@,
                    ));
                }
                AcquireResult::Queued { position, estimated_wait }
            }
        },
    }
}

/// [`rules::release`] on the entries of a table.
fn release_in(
    locks: &mut Vec<LockEntry>,
    lock_id: &LockId,
    client_id: &ClientId,
    lease_id: &LeaseId,
    default_ttl: u64,
    now: Timestamp,
    next_lease: LeaseId,
) -> (result: ReleaseResult)
    requires
        distinct_names(old(locks)@),
    ensures
        distinct_names(final(locks)@),
        (table_of(final(locks)@), result@) == rules::release(
            table_of(old(locks)@),
            lock_id@,
            client_id@,
            lease_id@,
            default_ttl as nat,
            now@,
            next_lease@,
        ),
{
    let ghost before = locks@;
    let i = match find(locks, lock_id) {
        None => {
            return ReleaseResult::NotFound;
        },
        Some(i) => i,
    };
    proof {
        lemma_entry_in_table(before, i as int);
    }
    let holds = match &locks[i].state.holder {
        None => false,
        Some(holder) => holder.client_id == *client_id && holder.lease_id == *lease_id,
    };
    if !holds {
        return ReleaseResult::NotHolder;
    }
    if locks[i].state.wait_queue.len() == 0 {
        let entry = &mut locks[i];
        entry.state.holder = None;
        proof {
            lemma_update_entry(before, i as int, locks@[i as int]);
        }
        return ReleaseResult::Success;
    }
    match now.checked_add_secs(default_ttl) {
        None => ReleaseResult::Error("TTL too large".to_owned()),
        Some(expires_at) => {
            let entry = &mut locks[i];
            let next = entry.state.wait_queue.remove(0);
            entry.state.holder = Some(
                LockHolder {
                    client_id: next.client_id,
                    lease_id: next_lease,
                    acquired_at: now,
                    expires_at,
                    renewal_count: 0,
                },
            );
            proof {
                lemma_update_entry(before, i as int, locks@[i as int]);
                assert(locks@[i as int].state@.wait_queue
                    =~= before[i as int].state@.wait_queue.drop_first());
            }
            ReleaseResult::Success
        },
    }
}

/// [`rules::renew`] on the entries of a table.
fn renew_in(
    locks: &mut Vec<LockEntry>,
    lock_id: &LockId,
    client_id: &ClientId,
    lease_id: &LeaseId,
    ttl: u64,
    now: Timestamp,
) -> (result: RenewResult)
    requires
        distinct_names(old(locks)@),
    ensures
        distinct_names(final(locks)@),
        (table_of(final(locks)@), result@) == rules::renew(
            table_of(old(locks)@),
            lock_id@,
            client_id@,
            lease_id@,
            ttl as nat,
            now@,
        ),
{
    let ghost before = locks@;
    let i = match find(locks, lock_id) {
        None => {
            return RenewResult::NotFound;
        },
        Some(i) => i,
    };
    proof {
        lemma_entry_in_table(before, i as int);
    }
    let (expired, renewals) = match &locks[i].state.holder {
        None => {
            return RenewResult::NotHolder;
        },
        Some(holder) => {
            if !(holder.client_id == *client_id && holder.lease_id == *lease_id) {
                return RenewResult::NotHolder;
            }
            (holder.expires_at.is_before(&now), holder.renewal_count)
        },
    };
    if expired {
        return RenewResult::Expired;
    }
    let new_expiry = match now.checked_add_secs(ttl) {
        None => {
            return RenewResult::Error("TTL too large".to_owned());
        },
        Some(new_expiry) => new_expiry,
    };
    if renewals == u32::MAX {
        return RenewResult::Error("renewal count exhausted".to_owned());
    }
    let entry = &mut locks[i];
    match &mut entry.state.holder {
        None => {},
        Some(holder) => {
            holder.expires_at = new_expiry;
            holder.renewal_count = renewals + 1;
        },
    }
    proof {
        lemma_update_entry(before, i as int, locks@[i as int]);
    }
    RenewResult::Success { new_expiry }
}

/// The place of the entry with the name of `lock_id`, if there is one.
fn find(locks: &Vec<LockEntry>, lock_id: &LockId) -> (place: Option<usize>)
    ensures
        match place {
            Some(i) => i < locks.len() && locks[i as int].id@ == lock_id@,
            None => !has_name(locks@, lock_id@),
        },
{
    let mut i: usize = 0;
    while i < locks.len()
        invariant
            i <= locks.len(),
            forall|j: int| 0 <= j < i ==> (#[trigger] locks[j]).id@ != lock_id@,
        decreases locks.len() - i,
    {
        if locks[i].id == *lock_id {
            return Some(i);
        }
        i += 1;
    }
    None
}

} // verus!
