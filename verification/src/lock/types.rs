//! The data that the lock table holds, and what its operations answer.

use crate::lock::rules;
use crate::lock::rules::Table;
use crate::time::{in_range, Timestamp};
use vstd::prelude::*;
use vstd::std_specs::cmp::PartialEqSpecImpl;

verus! {

/// Names a client of the lock service.
#[derive(Debug, Eq, Hash)]
pub struct ClientId(pub String);

/// Names a lock.
#[derive(Debug, Eq, Hash)]
pub struct LockId(pub String);

/// Names one grant of a lock. A new one is made for every grant.
#[derive(Debug, Eq, Hash)]
pub struct LeaseId(pub String);

/// The number of characters of a lease name that [`LeaseId::fresh`] makes.
pub const LEASE_TOKEN_LEN: usize = 36;

impl LeaseId {
    /// A lease name drawn at random.
    pub fn fresh() -> (lease_id: LeaseId)
        ensures
            lease_id@.len() == LEASE_TOKEN_LEN,
    {
        LeaseId(random_token())
    }
}

/// `uuid::Uuid::new_v4` written out by `to_string`: a random version 4 UUID
/// in its hyphenated form, which is 36 characters long. Nothing is promised
/// of which characters they are.
#[verifier::external_body]
fn random_token() -> (token: String)
    ensures
        token@.len() == LEASE_TOKEN_LEN,
{
    uuid::Uuid::new_v4().to_string()
}

impl View for ClientId {
    type V = Seq<char>;

    open spec fn view(&self) -> Seq<char> {
        self.0@
    }
}

impl View for LockId {
    type V = Seq<char>;

    open spec fn view(&self) -> Seq<char> {
        self.0@
    }
}

impl View for LeaseId {
    type V = Seq<char>;

    open spec fn view(&self) -> Seq<char> {
        self.0@
    }
}

impl Clone for ClientId {
    fn clone(&self) -> (copy: Self)
        ensures
            copy@ == self@,
    {
        ClientId(self.0.clone())
    }
}

impl Clone for LockId {
    fn clone(&self) -> (copy: Self)
        ensures
            copy@ == self@,
    {
        LockId(self.0.clone())
    }
}

impl Clone for LeaseId {
    fn clone(&self) -> (copy: Self)
        ensures
            copy@ == self@,
    {
        LeaseId(self.0.clone())
    }
}

impl PartialEq for ClientId {
    fn eq(&self, other: &Self) -> (same: bool) {
        self.0 == other.0
    }
}

impl PartialEqSpecImpl for ClientId {
    open spec fn obeys_eq_spec() -> bool {
        true
    }

    open spec fn eq_spec(&self, other: &Self) -> bool {
        self@ == other@
    }
}

impl PartialEq for LockId {
    fn eq(&self, other: &Self) -> (same: bool) {
        self.0 == other.0
    }
}

impl PartialEqSpecImpl for LockId {
    open spec fn obeys_eq_spec() -> bool {
        true
    }

    open spec fn eq_spec(&self, other: &Self) -> bool {
        self@ == other@
    }
}

impl PartialEq for LeaseId {
    fn eq(&self, other: &Self) -> (same: bool) {
        self.0 == other.0
    }
}

impl PartialEqSpecImpl for LeaseId {
    open spec fn obeys_eq_spec() -> bool {
        true
    }

    open spec fn eq_spec(&self, other: &Self) -> bool {
        self@ == other@
    }
}

/// The client that holds a lock, and the lease under which it holds it.
#[derive(Debug)]
pub struct LockHolder {
    pub client_id: ClientId,
    pub lease_id: LeaseId,
    pub acquired_at: Timestamp,
    pub expires_at: Timestamp,
    pub renewal_count: u32,
}

/// A client that waits for a lock.
#[derive(Debug)]
pub struct WaitRequest {
    pub client_id: ClientId,
    pub requested_at: Timestamp,
}

/// All that is recorded of one lock: who holds it, and who waits for it, in
/// the order in which they asked.
#[derive(Debug)]
pub struct LockState {
    pub holder: Option<LockHolder>,
    pub wait_queue: Vec<WaitRequest>,
    pub created_at: Timestamp,
}

/// A [`LockHolder`] as plain values.
pub struct HolderView {
    pub client_id: Seq<char>,
    pub lease_id: Seq<char>,
    pub acquired_at: int,
    pub expires_at: int,
    pub renewal_count: nat,
}

/// A [`WaitRequest`] as plain values.
pub struct WaitView {
    pub client_id: Seq<char>,
    pub requested_at: int,
}

/// A [`LockState`] as plain values.
pub struct LockStateView {
    pub holder: Option<HolderView>,
    pub wait_queue: Seq<WaitView>,
    pub created_at: int,
}

impl View for LockHolder {
    type V = HolderView;

    open spec fn view(&self) -> HolderView {
        HolderView {
            client_id: self.client_id@,
            lease_id: self.lease_id@,
            acquired_at: self.acquired_at@,
            expires_at: self.expires_at@,
            renewal_count: self.renewal_count as nat,
        }
    }
}

impl View for WaitRequest {
    type V = WaitView;

    open spec fn view(&self) -> WaitView {
        WaitView { client_id: self.client_id@, requested_at: self.requested_at@ }
    }
}

/// The views of a queue's entries, in the queue's order.
pub open spec fn queue_view(queue: Seq<WaitRequest>) -> Seq<WaitView> {
    Seq::new(queue.len(), |i: int| queue[i]@)
}

/// The view of a holder, if there is one.
pub open spec fn holder_view(holder: Option<LockHolder>) -> Option<HolderView> {
    match holder {
        Some(h) => Some(h@),
        None => None,
    }
}

/// The view of a lock's record, if there is one.
pub open spec fn state_view(state: Option<LockState>) -> Option<LockStateView> {
    match state {
        Some(s) => Some(s@),
        None => None,
    }
}

/// The view of a client's name, if there is one.
pub open spec fn name_view(name: Option<ClientId>) -> Option<Seq<char>> {
    match name {
        Some(n) => Some(n@),
        None => None,
    }
}

impl View for LockState {
    type V = LockStateView;

    open spec fn view(&self) -> LockStateView {
        LockStateView {
            holder: holder_view(self.holder),
            wait_queue: queue_view(self.wait_queue@),
            created_at: self.created_at@,
        }
    }
}

impl Clone for LockHolder {
    fn clone(&self) -> (copy: Self)
        ensures
            copy@ == self@,
    {
        LockHolder {
            client_id: self.client_id.clone(),
            lease_id: self.lease_id.clone(),
            acquired_at: self.acquired_at,
            expires_at: self.expires_at,
            renewal_count: self.renewal_count,
        }
    }
}

impl Clone for WaitRequest {
    fn clone(&self) -> (copy: Self)
        ensures
            copy@ == self@,
    {
        WaitRequest { client_id: self.client_id.clone(), requested_at: self.requested_at }
    }
}

impl Clone for LockState {
    fn clone(&self) -> (copy: Self)
        ensures
            copy@ == self@,
    {
        let mut queue: Vec<WaitRequest> = Vec::new();
        let mut i: usize = 0;
        while i < self.wait_queue.len()
            invariant
                i <= self.wait_queue.len(),
                queue.len() == i,
                forall|j: int| 0 <= j < i ==> queue[j]@ == self.wait_queue[j]@,
            decreases self.wait_queue.len() - i,
        {
            queue.push(self.wait_queue[i].clone());
            i += 1;
        }
        let holder = match &self.holder {
            Some(h) => Some(h.clone()),
            None => None,
        };
        assert(queue_view(queue@) =~= queue_view(self.wait_queue@));
        LockState { holder, wait_queue: queue, created_at: self.created_at }
    }
}

/// What an attempt to take a lock answers.
#[derive(Debug)]
pub enum AcquireResult {
    /// The caller holds the lock until `expires_at`.
    Granted { lease_id: LeaseId, expires_at: Timestamp },
    /// The lock is held. `position` counts the clients that were waiting
    /// before the caller; `estimated_wait` is the whole seconds that the
    /// holder's lease has left.
    Queued { position: usize, estimated_wait: u64 },
    /// The request could not be carried out.
    Error(String),
}

/// What an attempt to give a lock back answers.
#[derive(Debug)]
pub enum ReleaseResult {
    Success,
    NotHolder,
    NotFound,
    /// The request could not be carried out.
    Error(String),
}

/// What an attempt to extend a lease answers.
#[derive(Debug)]
pub enum RenewResult {
    Success { new_expiry: Timestamp },
    NotHolder,
    NotFound,
    Expired,
    /// The request could not be carried out.
    Error(String),
}

/// An [`AcquireResult`] as plain values.
pub enum AcquireOutcome {
    Granted { lease_id: Seq<char>, expires_at: int },
    Queued { position: nat, estimated_wait: nat },
    Error(Seq<char>),
}

/// A [`ReleaseResult`] as plain values.
pub enum ReleaseOutcome {
    Success,
    NotHolder,
    NotFound,
    Error(Seq<char>),
}

/// A [`RenewResult`] as plain values.
pub enum RenewOutcome {
    Success { new_expiry: int },
    NotHolder,
    NotFound,
    Expired,
    Error(Seq<char>),
}

impl View for AcquireResult {
    type V = AcquireOutcome;

    open spec fn view(&self) -> AcquireOutcome {
        match self {
            AcquireResult::Granted { lease_id, expires_at } => AcquireOutcome::Granted {
                lease_id: lease_id@,
                expires_at: expires_at@,
            },
            AcquireResult::Queued { position, estimated_wait } => AcquireOutcome::Queued {
                position: *position as nat,
                estimated_wait: *estimated_wait as nat,
            },
            AcquireResult::Error(message) => AcquireOutcome::Error(message@),
        }
    }
}

impl View for ReleaseResult {
    type V = ReleaseOutcome;

    open spec fn view(&self) -> ReleaseOutcome {
        match self {
            ReleaseResult::Success => ReleaseOutcome::Success,
            ReleaseResult::NotHolder => ReleaseOutcome::NotHolder,
            ReleaseResult::NotFound => ReleaseOutcome::NotFound,
            ReleaseResult::Error(message) => ReleaseOutcome::Error(message@),
        }
    }
}

impl View for RenewResult {
    type V = RenewOutcome;

    open spec fn view(&self) -> RenewOutcome {
        match self {
            RenewResult::Success { new_expiry } => RenewOutcome::Success { new_expiry: new_expiry@ },
            RenewResult::NotHolder => RenewOutcome::NotHolder,
            RenewResult::NotFound => RenewOutcome::NotFound,
            RenewResult::Expired => RenewOutcome::Expired,
            RenewResult::Error(message) => RenewOutcome::Error(message@),
        }
    }
}

/// The message of the error that is answered when the system clock stands
/// outside the range of a timestamp.
pub open spec fn clock_out_of_range() -> Seq<char> {
    "clock out of range"@
}

/// Whether `after` and `outcome` are what [`rules::acquire`] gives at the
/// instant `now` with the lease name `lease`.
pub open spec fn acquired_at(
    before: Table,
    after: Table,
    outcome: AcquireOutcome,
    lock: Seq<char>,
    client: Seq<char>,
    ttl: nat,
    now: int,
    lease: Seq<char>,
) -> bool {
    in_range(now) && (after, outcome) == rules::acquire(before, lock, client, ttl, now, lease)
}

/// Whether `after` and `outcome` are what [`rules::release`] gives at the
/// instant `now` with the lease name `next_lease`.
pub open spec fn released_at(
    before: Table,
    after: Table,
    outcome: ReleaseOutcome,
    lock: Seq<char>,
    client: Seq<char>,
    lease: Seq<char>,
    default_ttl: nat,
    now: int,
    next_lease: Seq<char>,
) -> bool {
    in_range(now) && (after, outcome) == rules::release(
        before,
        lock,
        client,
        lease,
        default_ttl,
        now,
        next_lease,
    )
}

/// Whether `after` and `outcome` are what [`rules::renew`] gives at the
/// instant `now`.
pub open spec fn renewed_at(
    before: Table,
    after: Table,
    outcome: RenewOutcome,
    lock: Seq<char>,
    client: Seq<char>,
    lease: Seq<char>,
    ttl: nat,
    now: int,
) -> bool {
    in_range(now) && (after, outcome) == rules::renew(before, lock, client, lease, ttl, now)
}

/// A lock table that reads the time from the system clock and draws its
/// lease names at random.
///
/// Each changing operation follows the rule of the same name in [`rules`],
/// at some instant and with some lease name that the caller does not choose;
/// or it changes nothing and answers an error, because the clock stands
/// outside the range of a timestamp.
pub trait LockManager: Send + Sync {
    /// The table that the manager holds.
    spec fn table(&self) -> Table;

    /// The seconds for which a lock is granted to a client that waited for
    /// it.
    spec fn promotion_ttl(&self) -> nat;

    /// Asks for the lock for `ttl` seconds from now.
    fn try_acquire(&mut self, lock_id: &LockId, client_id: &ClientId, ttl: u64) -> (result:
        AcquireResult)
        ensures
            final(self).promotion_ttl() == old(self).promotion_ttl(),
            (result@ == AcquireOutcome::Error(clock_out_of_range()) && final(self).table() == old(
                self,
            ).table()) || (exists|now: int, lease: Seq<char>| #[trigger]
                acquired_at(
                    old(self).table(),
                    final(self).table(),
                    result@,
                    lock_id@,
                    client_id@,
                    ttl as nat,
                    now,
                    lease,
                )),
    ;

    /// Gives the lock back.
    fn release(&mut self, lock_id: &LockId, client_id: &ClientId, lease_id: &LeaseId) -> (result:
        ReleaseResult)
        ensures
            final(self).promotion_ttl() == old(self).promotion_ttl(),
            (result@ == ReleaseOutcome::Error(clock_out_of_range()) && final(self).table() == old(
                self,
            ).table()) || (exists|now: int, next_lease: Seq<char>| #[trigger]
                released_at(
                    old(self).table(),
                    final(self).table(),
                    result@,
                    lock_id@,
                    client_id@,
                    lease_id@,
                    old(self).promotion_ttl(),
                    now,
                    next_lease,
                )),
    ;

    /// Asks that the lease run for `ttl` seconds from now.
    fn renew(&mut self, lock_id: &LockId, client_id: &ClientId, lease_id: &LeaseId, ttl: u64) -> (
        result: RenewResult)
        ensures
            final(self).promotion_ttl() == old(self).promotion_ttl(),
            (result@ == RenewOutcome::Error(clock_out_of_range()) && final(self).table() == old(
                self,
            ).table()) || (exists|now: int| #[trigger]
                renewed_at(
                    old(self).table(),
                    final(self).table(),
                    result@,
                    lock_id@,
                    client_id@,
                    lease_id@,
                    ttl as nat,
                    now,
                )),
    ;

    /// What is recorded of the lock, if anything. Nothing changes: a lease
    /// that has run out is still shown.
    fn status(&self, lock_id: &LockId) -> (state: Option<LockState>)
        ensures
            state_view(state) == rules::status(self.table(), lock_id@),
    ;

    /// The client that is recorded as the holder of the lock, if any.
    fn current_holder(&self, lock_id: &LockId) -> (holder: Option<ClientId>)
        ensures
            name_view(holder) == rules::holder_of(self.table(), lock_id@),
    ;

    /// The number of clients that wait for the lock.
    fn queue_length(&self, lock_id: &LockId) -> (length: usize)
        ensures
            length == rules::waiting_for(self.table(), lock_id@),
    ;
}

} // verus!
