//! From the texts of a request to the names that the lock table knows.

use crate::lock::types::{ClientId, LeaseId, LockId};
use vstd::prelude::*;

verus! {

/// The lease that `lease_id` names.
pub fn change_to_lease_id(lease_id: &String) -> (id: LeaseId)
    ensures
        id@ == lease_id@,
{
    LeaseId(lease_id.clone())
}

/// The lock that `lock_id` names.
pub fn change_to_lock_id(lock_id: &String) -> (id: LockId)
    ensures
        id@ == lock_id@,
{
    LockId(lock_id.clone())
}

/// The client that `client_id` names.
pub fn change_to_client_id(client_id: &String) -> (id: ClientId)
    ensures
        id@ == client_id@,
{
    ClientId(client_id.clone())
}

} // verus!
