use agentfund::errors::AgentFundError;
use agentfund::invoice::{create_invoice, pay_invoice, InvoiceStatus};
use agentfund::treasury::initialize_treasury;

fn id(b: u8) -> [u8; 32] {
    [b; 32]
}

#[test]
fn treasury_starts_zeroed() {
    let t = initialize_treasury(id(1), 7, 500);
    assert_eq!(t.owner, id(1));
    assert_eq!(t.bump, 7);
    assert_eq!(t.total_received, 0);
    assert_eq!(t.total_settled, 0);
    assert_eq!(t.pending_invoices, 0);
    assert_eq!(t.created_at, 500);
}

#[test]
fn invoice_paid_before_expiry() {
    let recipient = id(1);
    let mut t = initialize_treasury(recipient, 0, 100);
    let (mut inv, ev) = create_invoice(
        &mut t,
        id(2),
        recipient,
        1000,
        b"work".to_vec(),
        100 + 3600,
        100,
    )
    .unwrap();
    assert_eq!(t.pending_invoices, 1);
    assert_eq!(inv.status, InvoiceStatus::Pending);
    assert_eq!(ev.invoice_id, id(2));
    assert_eq!(ev.recipient, recipient);
    assert_eq!(ev.amount, 1000);
    assert_eq!(ev.expires_at, 3700);

    let payer = id(3);
    let (transfer, paid) = pay_invoice(&mut inv, &mut t, payer, 200).unwrap();
    assert_eq!(inv.status, InvoiceStatus::Paid);
    assert_eq!(inv.paid_at, Some(200));
    assert_eq!(inv.payer, Some(payer));
    assert_eq!(t.total_received, 1000);
    assert_eq!(t.pending_invoices, 0);
    assert_eq!(transfer.from, payer);
    assert_eq!(transfer.to, recipient);
    assert_eq!(transfer.amount, 1000);
    assert_eq!(paid.invoice_id, id(2));
    assert_eq!(paid.payer, payer);
    assert_eq!(paid.amount, 1000);
}

#[test]
fn payment_adds_exactly_the_amount() {
    let recipient = id(1);
    let mut t = initialize_treasury(recipient, 0, 0);
    let (mut a, _) = create_invoice(&mut t, id(2), recipient, 70, vec![], 1000, 0).unwrap();
    let (mut b, _) = create_invoice(&mut t, id(3), recipient, 30, vec![], 1000, 0).unwrap();
    assert_eq!(t.pending_invoices, 2);
    pay_invoice(&mut a, &mut t, id(9), 10).unwrap();
    assert_eq!(t.total_received, 70);
    assert_eq!(t.pending_invoices, 1);
    pay_invoice(&mut b, &mut t, id(9), 20).unwrap();
    assert_eq!(t.total_received, 100);
    assert_eq!(t.pending_invoices, 0);
}

#[test]
fn pending_count_saturates_at_zero() {
    let recipient = id(1);
    let mut fresh = initialize_treasury(recipient, 0, 0);
    let mut counted = initialize_treasury(recipient, 0, 0);
    let (mut inv, _) = create_invoice(&mut counted, id(2), recipient, 5, vec![], 1000, 0).unwrap();
    // Pay against a treasury that never counted the invoice as pending.
    pay_invoice(&mut inv, &mut fresh, id(9), 10).unwrap();
    assert_eq!(fresh.total_received, 5);
    assert_eq!(fresh.pending_invoices, 0);
}

#[test]
fn create_rejects_long_memo() {
    let mut t = initialize_treasury(id(1), 0, 0);
    let r = create_invoice(&mut t, id(2), id(1), 10, vec![0u8; 257], 100, 0);
    assert_eq!(r.unwrap_err(), AgentFundError::MemoTooLong);
    assert_eq!(t.pending_invoices, 0);
}

#[test]
fn create_accepts_memo_at_cap() {
    let mut t = initialize_treasury(id(1), 0, 0);
    let r = create_invoice(&mut t, id(2), id(1), 10, vec![0u8; 256], 100, 0);
    assert!(r.is_ok());
}

#[test]
fn create_rejects_zero_amount() {
    let mut t = initialize_treasury(id(1), 0, 0);
    let r = create_invoice(&mut t, id(2), id(1), 0, vec![], 100, 0);
    assert_eq!(r.unwrap_err(), AgentFundError::InvalidAmount);
}

#[test]
fn create_rejects_past_expiry() {
    let mut t = initialize_treasury(id(1), 0, 0);
    let r = create_invoice(&mut t, id(2), id(1), 10, vec![], 100, 100);
    assert_eq!(r.unwrap_err(), AgentFundError::InvalidExpiry);
}

#[test]
fn pay_rejects_non_pending_invoice() {
    let recipient = id(1);
    let mut t = initialize_treasury(recipient, 0, 0);
    let (mut inv, _) = create_invoice(&mut t, id(2), recipient, 10, vec![], 1000, 0).unwrap();
    pay_invoice(&mut inv, &mut t, id(3), 1).unwrap();
    let again = pay_invoice(&mut inv, &mut t, id(3), 2);
    assert_eq!(again.unwrap_err(), AgentFundError::InvoiceNotPending);
    assert_eq!(t.total_received, 10);
}

#[test]
fn pay_rejects_expired_invoice() {
    let recipient = id(1);
    let mut t = initialize_treasury(recipient, 0, 0);
    let (mut inv, _) = create_invoice(&mut t, id(2), recipient, 10, vec![], 1000, 0).unwrap();
    let r = pay_invoice(&mut inv, &mut t, id(3), 1000);
    assert_eq!(r.unwrap_err(), AgentFundError::InvoiceExpired);
    assert_eq!(inv.status, InvoiceStatus::Pending);
    assert_eq!(inv.paid_at, None);
    assert_eq!(t.pending_invoices, 1);
}

#[test]
fn default_invoice_status_is_pending() {
    assert_eq!(InvoiceStatus::default(), InvoiceStatus::Pending);
}
