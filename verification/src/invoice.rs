//! Invoice lifecycle: single-payment requests with expiry.
//!
//! An invoice is created `Pending` and transitions once to `Paid`; paying
//! updates the recipient's treasury and owes the host one value transfer
//! from the payer to the recipient, committed atomically with the new
//! state. Every rejection leaves the invoice and treasury unchanged.

use vstd::prelude::*;
use crate::MAX_MEMO_LENGTH;
use crate::errors::AgentFundError;
use crate::ids::Pubkey;
use crate::transfer::Transfer;
use crate::treasury::Treasury;
use crate::treasury::spec_saturating_dec;

verus! {

/// Lifecycle state of an invoice.
#[derive(Clone, Copy, Debug, PartialEq, Eq, Structural)]
pub enum InvoiceStatus {
    Pending,
    Paid,
    Expired,
    Cancelled,
}

impl Default for InvoiceStatus {
    /// A fresh invoice is pending.
    fn default() -> (s: Self)
        ensures
            s is Pending,
    {
        InvoiceStatus::Pending
    }
}

/// A single-payment request owned by its recipient.
#[derive(Clone, Debug)]
pub struct Invoice {
    /// Unique invoice ID
    pub id: Pubkey,
    /// Recipient (invoice creator)
    pub recipient: Pubkey,
    /// Amount in base units
    pub amount: u64,
    /// Human-readable memo, bounded length
    pub memo: Vec<u8>,
    /// Current status
    pub status: InvoiceStatus,
    /// Creation timestamp
    pub created_at: i64,
    /// Expiration timestamp
    pub expires_at: i64,
    /// Payment timestamp (if paid)
    pub paid_at: Option<i64>,
    /// Payer identity (if paid)
    pub payer: Option<Pubkey>,
}

impl Invoice {
    /// Well-formedness: a positive amount, a bounded memo, an expiry
    /// strictly after creation, and the payment fields set exactly when
    /// the invoice is paid.
    pub open spec fn wf(self) -> bool {
        &&& self.amount > 0
        &&& self.memo@.len() <= MAX_MEMO_LENGTH
        &&& 0 <= self.created_at < self.expires_at
        &&& (self.status is Paid <==> self.paid_at is Some)
        &&& (self.status is Paid <==> self.payer is Some)
        &&& (self.paid_at matches Some(t) ==> t >= 0)
    }
}

/// Notification of a successful invoice creation.
#[derive(Clone, Copy, Debug)]
pub struct InvoiceCreated {
    pub invoice_id: Pubkey,
    pub recipient: Pubkey,
    pub amount: u64,
    pub expires_at: i64,
}

/// Notification of a successful invoice payment.
#[derive(Clone, Copy, Debug)]
pub struct InvoicePaid {
    pub invoice_id: Pubkey,
    pub payer: Pubkey,
    pub amount: u64,
}

/// When a creation request is accepted: bounded memo, positive amount,
/// expiry in the future.
pub open spec fn create_invoice_accepted(memo_len: nat, amount: u64, expires_at: i64, now: i64) -> bool {
    &&& memo_len <= MAX_MEMO_LENGTH
    &&& amount > 0
    &&& expires_at > now
}

/// When a payment is accepted: the invoice is pending and not expired.
pub open spec fn pay_invoice_accepted(invoice: Invoice, now: i64) -> bool {
    &&& invoice.status is Pending
    &&& now < invoice.expires_at
}

/// Create a payment invoice owned by `recipient` and count it against the
/// recipient's treasury as pending.
pub fn create_invoice(
    treasury: &mut Treasury,
    invoice_id: Pubkey,
    recipient: Pubkey,
    amount: u64,
    memo: Vec<u8>,
    expires_at: i64,
    now: i64,
) -> (r: Result<(Invoice, InvoiceCreated), AgentFundError>)
    requires
        old(treasury).wf(),
        now >= 0,
        create_invoice_accepted(memo@.len(), amount, expires_at, now)
            ==> old(treasury).pending_invoices < u64::MAX,
    ensures
        r is Ok <==> create_invoice_accepted(memo@.len(), amount, expires_at, now),
        memo@.len() > MAX_MEMO_LENGTH ==> r == Err::<(Invoice, InvoiceCreated), _>(AgentFundError::MemoTooLong),
        memo@.len() <= MAX_MEMO_LENGTH && amount == 0
            ==> r == Err::<(Invoice, InvoiceCreated), _>(AgentFundError::InvalidAmount),
        memo@.len() <= MAX_MEMO_LENGTH && amount > 0 && expires_at <= now
            ==> r == Err::<(Invoice, InvoiceCreated), _>(AgentFundError::InvalidExpiry),
        r is Err ==> *final(treasury) == *old(treasury),
        r matches Ok(p) ==> {
            &&& p.0.wf()
            &&& p.0.id == invoice_id
            &&& p.0.recipient == recipient
            &&& p.0.amount == amount
            &&& p.0.memo@ == memo@
            &&& p.0.status is Pending
            &&& p.0.created_at == now
            &&& p.0.expires_at == expires_at
            &&& p.0.paid_at is None
            &&& p.0.payer is None
            &&& final(treasury).pending_invoices == old(treasury).pending_invoices + 1
            &&& final(treasury).owner == old(treasury).owner
            &&& final(treasury).bump == old(treasury).bump
            &&& final(treasury).total_received == old(treasury).total_received
            &&& final(treasury).total_settled == old(treasury).total_settled
            &&& final(treasury).created_at == old(treasury).created_at
            &&& final(treasury).wf()
            &&& p.1.invoice_id == invoice_id
            &&& p.1.recipient == recipient
            &&& p.1.amount == amount
            &&& p.1.expires_at == expires_at
        },
{
    if memo.len() > MAX_MEMO_LENGTH {
        return Err(AgentFundError::MemoTooLong);
    }
    if amount == 0 {
        return Err(AgentFundError::InvalidAmount);
    }
    if expires_at <= now {
        return Err(AgentFundError::InvalidExpiry);
    }

    treasury.pending_invoices = treasury.pending_invoices + 1;

    let invoice = Invoice {
        id: invoice_id,
        recipient,
        amount,
        memo,
        status: InvoiceStatus::Pending,
        created_at: now,
        expires_at,
        paid_at: None,
        payer: None,
    };
    let event = InvoiceCreated { invoice_id, recipient, amount, expires_at };
    Ok((invoice, event))
}

/// Pay a pending, unexpired invoice: mark it paid, credit the recipient's
/// treasury, and owe the host one transfer of the invoice amount from the
/// payer to the recipient. The host must execute the transfer and commit
/// the new state as one unit, or discard both.
pub fn pay_invoice(
    invoice: &mut Invoice,
    treasury: &mut Treasury,
    payer: Pubkey,
    now: i64,
) -> (r: Result<(Transfer, InvoicePaid), AgentFundError>)
    requires
        old(invoice).wf(),
        old(treasury).wf(),
        now >= 0,
        pay_invoice_accepted(*old(invoice), now)
            ==> old(treasury).total_received + old(invoice).amount <= u64::MAX,
    ensures
        r is Ok <==> pay_invoice_accepted(*old(invoice), now),
        !(old(invoice).status is Pending)
            ==> r == Err::<(Transfer, InvoicePaid), _>(AgentFundError::InvoiceNotPending),
        old(invoice).status is Pending && now >= old(invoice).expires_at
            ==> r == Err::<(Transfer, InvoicePaid), _>(AgentFundError::InvoiceExpired),
        r is Err ==> *final(invoice) == *old(invoice) && *final(treasury) == *old(treasury),
        r matches Ok(p) ==> {
            &&& final(invoice).wf()
            &&& final(invoice).status is Paid
            &&& final(invoice).paid_at == Some(now)
            &&& final(invoice).payer == Some(payer)
            &&& final(invoice).id == old(invoice).id
            &&& final(invoice).recipient == old(invoice).recipient
            &&& final(invoice).amount == old(invoice).amount
            &&& final(invoice).memo@ == old(invoice).memo@
            &&& final(invoice).created_at == old(invoice).created_at
            &&& final(invoice).expires_at == old(invoice).expires_at
            &&& final(treasury).wf()
            &&& final(treasury).total_received == old(treasury).total_received + old(invoice).amount
            &&& final(treasury).pending_invoices == spec_saturating_dec(old(treasury).pending_invoices)
            &&& final(treasury).owner == old(treasury).owner
            &&& final(treasury).bump == old(treasury).bump
            &&& final(treasury).total_settled == old(treasury).total_settled
            &&& final(treasury).created_at == old(treasury).created_at
            &&& p.0.from == payer
            &&& p.0.to == old(invoice).recipient
            &&& p.0.amount == old(invoice).amount
            &&& p.1.invoice_id == old(invoice).id
            &&& p.1.payer == payer
            &&& p.1.amount == old(invoice).amount
        },
{
    match invoice.status {
        InvoiceStatus::Pending => {},
        _ => {
            return Err(AgentFundError::InvoiceNotPending);
        },
    }
    if now >= invoice.expires_at {
        return Err(AgentFundError::InvoiceExpired);
    }

    let transfer = Transfer { from: payer, to: invoice.recipient, amount: invoice.amount };

    invoice.status = InvoiceStatus::Paid;
    invoice.paid_at = Some(now);
    invoice.payer = Some(payer);

    treasury.total_received = treasury.total_received + invoice.amount;
    treasury.pending_invoices =
        if treasury.pending_invoices > 0 { treasury.pending_invoices - 1 } else { 0 };

    let event = InvoicePaid { invoice_id: invoice.id, payer, amount: invoice.amount };
    Ok((transfer, event))
}

} // verus!
