//! What the ledger publishes to observers once an operation has committed.

use anchor_lang::prelude::Pubkey;
use vstd::prelude::*;

verus! {

/// Published when a capsule has been created.
#[derive(Debug, Clone, PartialEq, Eq)]
pub struct TimeCapsuleCreated {
    pub capsule_id: Pubkey,
    pub sender: Pubkey,
    pub unlock_timestamp: i64,
    pub created_at: i64,
}

/// Published each time a capsule has been marked as claimed.
#[derive(Debug, Clone, PartialEq, Eq)]
pub struct TimeCapsuleClaimed {
    pub capsule_id: Pubkey,
    pub claimed_at: i64,
}

} // verus!
