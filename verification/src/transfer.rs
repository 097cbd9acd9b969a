//! The value-transfer directive.
//!
//! The atomic move of funds is an external capability of the host ledger.
//! A transition that moves value returns a `Transfer` naming payer, payee
//! and amount; the host must execute it and commit the new entity state as
//! one all-or-nothing unit, or discard both.

use vstd::prelude::*;
use crate::ids::Pubkey;

verus! {

/// One atomic value movement owed by the host: `amount` units from
/// `from` to `to`.
#[derive(Clone, Copy, Debug)]
pub struct Transfer {
    /// Paying party
    pub from: Pubkey,
    /// Receiving party
    pub to: Pubkey,
    /// Amount in base units
    pub amount: u64,
}

} // verus!
