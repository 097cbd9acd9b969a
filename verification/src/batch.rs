//! Batch settlement: one aggregate value transfer covering many invoices.
//!
//! A settlement is an immutable receipt — created once, never mutated.
//! It amortizes per-invoice transfer overhead into a single value
//! movement; it does not itself cross-validate each referenced invoice's
//! amount or status, so a caller wanting that guarantee must verify
//! membership before settling.

use vstd::prelude::*;
use crate::MAX_BATCH_SIZE;
use crate::errors::AgentFundError;
use crate::ids::Pubkey;
use crate::transfer::Transfer;
use crate::treasury::Treasury;
use crate::treasury::spec_saturating_sub;

verus! {

/// An immutable settlement receipt.
#[derive(Clone, Copy, Debug)]
pub struct BatchSettlement {
    /// Unique batch ID
    pub id: Pubkey,
    /// Recipient of the batch
    pub recipient: Pubkey,
    /// Number of invoices in the batch
    pub invoice_count: u32,
    /// Total amount settled
    pub total_amount: u64,
    /// Settlement timestamp
    pub settled_at: i64,
    /// Who submitted the settlement
    pub settler: Pubkey,
}

impl BatchSettlement {
    /// Well-formedness: a non-empty batch within the size cap and a
    /// valid settlement time.
    pub open spec fn wf(self) -> bool {
        &&& 1 <= self.invoice_count <= MAX_BATCH_SIZE
        &&& self.settled_at >= 0
    }
}

/// Notification of a successful batch settlement.
#[derive(Clone, Copy, Debug)]
pub struct BatchSettled {
    pub batch_id: Pubkey,
    pub invoice_count: u32,
    pub total_amount: u64,
    pub recipient: Pubkey,
}

/// When a settlement is accepted: at least one invoice, at most the cap.
pub open spec fn settle_batch_accepted(invoice_count: nat) -> bool {
    1 <= invoice_count <= MAX_BATCH_SIZE
}

/// Settle a batch of invoices in one value movement: record the receipt,
/// credit the recipient treasury's settled total, release the pending
/// count (saturating at zero), and owe the host one transfer of the
/// total from the settler to the recipient.
pub fn settle_batch(
    treasury: &mut Treasury,
    batch_id: Pubkey,
    invoice_ids: Vec<Pubkey>,
    total_amount: u64,
    recipient: Pubkey,
    settler: Pubkey,
    now: i64,
) -> (r: Result<(BatchSettlement, Transfer, BatchSettled), AgentFundError>)
    requires
        old(treasury).wf(),
        now >= 0,
        settle_batch_accepted(invoice_ids@.len())
            ==> old(treasury).total_settled + total_amount <= u64::MAX,
    ensures
        r is Ok <==> settle_batch_accepted(invoice_ids@.len()),
        invoice_ids@.len() > MAX_BATCH_SIZE
            ==> r == Err::<(BatchSettlement, Transfer, BatchSettled), _>(AgentFundError::BatchTooLarge),
        invoice_ids@.len() == 0
            ==> r == Err::<(BatchSettlement, Transfer, BatchSettled), _>(AgentFundError::EmptyBatch),
        r is Err ==> *final(treasury) == *old(treasury),
        r matches Ok(p) ==> {
            &&& p.0.wf()
            &&& p.0.id == batch_id
            &&& p.0.recipient == recipient
            &&& p.0.invoice_count == invoice_ids@.len()
            &&& p.0.total_amount == total_amount
            &&& p.0.settled_at == now
            &&& p.0.settler == settler
            &&& final(treasury).wf()
            &&& final(treasury).total_settled == old(treasury).total_settled + total_amount
            &&& final(treasury).pending_invoices
                == spec_saturating_sub(old(treasury).pending_invoices, invoice_ids@.len() as u64)
            &&& final(treasury).owner == old(treasury).owner
            &&& final(treasury).bump == old(treasury).bump
            &&& final(treasury).total_received == old(treasury).total_received
            &&& final(treasury).created_at == old(treasury).created_at
            &&& p.1.from == settler
            &&& p.1.to == recipient
            &&& p.1.amount == total_amount
            &&& p.2.batch_id == batch_id
            &&& p.2.invoice_count == invoice_ids@.len()
            &&& p.2.total_amount == total_amount
            &&& p.2.recipient == recipient
        },
{
    if invoice_ids.len() > MAX_BATCH_SIZE {
        return Err(AgentFundError::BatchTooLarge);
    }
    if invoice_ids.len() == 0 {
        return Err(AgentFundError::EmptyBatch);
    }

    let count: u64 = invoice_ids.len() as u64;
    let batch = BatchSettlement {
        id: batch_id,
        recipient,
        invoice_count: invoice_ids.len() as u32,
        total_amount,
        settled_at: now,
        settler,
    };

    treasury.total_settled = treasury.total_settled + total_amount;
    treasury.pending_invoices =
        if treasury.pending_invoices >= count { treasury.pending_invoices - count } else { 0 };

    let transfer = Transfer { from: settler, to: recipient, amount: total_amount };
    let event = BatchSettled {
        batch_id,
        invoice_count: batch.invoice_count,
        total_amount,
        recipient,
    };
    Ok((batch, transfer, event))
}

} // verus!
