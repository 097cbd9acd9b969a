//! Per-agent treasury bookkeeping.
//!
//! A treasury is the running ledger of one agent: totals received and
//! settled (monotonically non-decreasing) and the count of pending
//! invoices (decrements saturate at zero; see the saturating helpers).

use vstd::prelude::*;
use crate::ids::Pubkey;

verus! {

/// Running totals for one agent.
#[derive(Clone, Copy, Debug)]
pub struct Treasury {
    /// Owner agent's identity
    pub owner: Pubkey,
    /// Key-derivation bump seed, kept for the host's store
    pub bump: u8,
    /// Total units received
    pub total_received: u64,
    /// Total units settled via batches
    pub total_settled: u64,
    /// Number of pending invoices
    pub pending_invoices: u64,
    /// Creation timestamp
    pub created_at: i64,
}

impl Treasury {
    /// A treasury is well formed when its creation time is a valid
    /// (non-negative) timestamp.
    pub open spec fn wf(self) -> bool {
        self.created_at >= 0
    }
}

/// `n - 1`, saturating at zero: the pending-invoice counter never
/// underflows. The saturation silently tolerates undercount drift (a
/// settlement may reference invoices that were never pending).
pub open spec fn spec_saturating_dec(n: u64) -> u64 {
    if n > 0 {
        (n - 1) as u64
    } else {
        0
    }
}

/// `n - k`, saturating at zero.
pub open spec fn spec_saturating_sub(n: u64, k: u64) -> u64 {
    if n >= k {
        (n - k) as u64
    } else {
        0
    }
}

/// Initialize an agent's treasury with zeroed totals.
pub fn initialize_treasury(owner: Pubkey, bump: u8, now: i64) -> (t: Treasury)
    requires
        now >= 0,
    ensures
        t.wf(),
        t.owner == owner,
        t.bump == bump,
        t.total_received == 0,
        t.total_settled == 0,
        t.pending_invoices == 0,
        t.created_at == now,
{
    Treasury {
        owner,
        bump,
        total_received: 0,
        total_settled: 0,
        pending_invoices: 0,
        created_at: now,
    }
}

} // verus!
