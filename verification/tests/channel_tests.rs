use agentfund::errors::AgentFundError;
use agentfund::channel::{close_channel, open_channel, ChannelStatus};

fn id(b: u8) -> [u8; 32] {
    [b; 32]
}

#[test]
fn open_then_close_then_closed_is_terminal() {
    let (mut ch, transfer, ev) =
        open_channel(id(1), id(2), id(3), 5000, id(4), 100).unwrap();
    assert_eq!(ch.status, ChannelStatus::Open);
    assert_eq!(ch.deposit_a, 5000);
    assert_eq!(ch.deposit_b, 0);
    assert_eq!(ch.balance_a, 5000);
    assert_eq!(ch.balance_b, 0);
    assert_eq!(ch.nonce, 0);
    assert_eq!(ch.closed_at, None);
    assert_eq!(transfer.from, id(2));
    assert_eq!(transfer.to, id(4));
    assert_eq!(transfer.amount, 5000);
    assert_eq!(ev.deposit, 5000);

    let closed = close_channel(&mut ch, 2000, 3000, 1, 200).unwrap();
    assert_eq!(ch.status, ChannelStatus::Closed);
    assert_eq!(ch.balance_a, 2000);
    assert_eq!(ch.balance_b, 3000);
    assert_eq!(ch.nonce, 1);
    assert_eq!(ch.closed_at, Some(200));
    assert_eq!(closed.channel_id, id(1));
    assert_eq!(closed.final_balance_a, 2000);
    assert_eq!(closed.final_balance_b, 3000);

    let again = close_channel(&mut ch, 1000, 3000, 2, 300);
    assert_eq!(again.unwrap_err(), AgentFundError::ChannelNotOpen);
    assert_eq!(ch.balance_a, 2000);
    assert_eq!(ch.balance_b, 3000);
    assert_eq!(ch.nonce, 1);
}

#[test]
fn open_rejects_zero_deposit() {
    let r = open_channel(id(1), id(2), id(3), 0, id(4), 100);
    assert_eq!(r.unwrap_err(), AgentFundError::InvalidAmount);
}

#[test]
fn close_rejects_stale_nonce() {
    let (mut ch, _, _) = open_channel(id(1), id(2), id(3), 100, id(4), 0).unwrap();
    let r = close_channel(&mut ch, 40, 60, 0, 10);
    assert_eq!(r.unwrap_err(), AgentFundError::InvalidNonce);
    assert_eq!(ch.status, ChannelStatus::Open);
}

#[test]
fn close_rejects_unbalanced_statement() {
    let (mut ch, _, _) = open_channel(id(1), id(2), id(3), 100, id(4), 0).unwrap();
    let minting = close_channel(&mut ch, 60, 60, 1, 10);
    assert_eq!(minting.unwrap_err(), AgentFundError::BalanceMismatch);
    let burning = close_channel(&mut ch, 40, 40, 1, 10);
    assert_eq!(burning.unwrap_err(), AgentFundError::BalanceMismatch);
    assert_eq!(ch.status, ChannelStatus::Open);
    assert_eq!(ch.nonce, 0);
}

#[test]
fn close_rejects_overflowing_statement() {
    let (mut ch, _, _) = open_channel(id(1), id(2), id(3), 100, id(4), 0).unwrap();
    // u64::MAX + u64::MAX wraps to a small number; the statement must
    // still be judged on the mathematical sum and rejected.
    let r = close_channel(&mut ch, u64::MAX, u64::MAX, 1, 10);
    assert_eq!(r.unwrap_err(), AgentFundError::BalanceMismatch);
}

#[test]
fn balances_allocate_the_deposited_pool() {
    let (mut ch, _, _) = open_channel(id(1), id(2), id(3), 100, id(4), 0).unwrap();
    assert_eq!(ch.balance_a + ch.balance_b, ch.deposit_a + ch.deposit_b);
    close_channel(&mut ch, 1, 99, 7, 10).unwrap();
    assert_eq!(ch.balance_a + ch.balance_b, ch.deposit_a + ch.deposit_b);
    assert_eq!(ch.deposit_a, 100);
    assert_eq!(ch.deposit_b, 0);
}

#[test]
fn default_channel_status_is_open() {
    assert_eq!(ChannelStatus::default(), ChannelStatus::Open);
}
