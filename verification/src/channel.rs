//! Bilateral payment channels: a nonce-ordered balance-commitment
//! protocol over a single escrowed deposit pool.
//!
//! The conservation invariant — the two balances always sum to the two
//! deposits — holds in every reachable state: opening establishes it and
//! the only accepted close preserves it, so no sequence of valid opens
//! and closes can mint or burn value. A close is accepted only with a
//! strictly larger nonce, and a closed channel is terminal.
//!
//! The design does not verify that both parties co-signed the closing
//! balance statement; the host is expected to supply that authorization
//! before submitting a close.

use vstd::prelude::*;
use crate::errors::AgentFundError;
use crate::ids::Pubkey;
use crate::transfer::Transfer;

verus! {

/// Lifecycle state of a channel.
#[derive(Clone, Copy, Debug, PartialEq, Eq, Structural)]
pub enum ChannelStatus {
    Open,
    Closing,
    Closed,
    Disputed,
}

impl Default for ChannelStatus {
    /// A fresh channel is open.
    fn default() -> (s: Self)
        ensures
            s is Open,
    {
        ChannelStatus::Open
    }
}

/// A bilateral escrow between `party_a` and `party_b`.
#[derive(Clone, Copy, Debug)]
pub struct PaymentChannel {
    /// Unique channel ID
    pub id: Pubkey,
    /// First party
    pub party_a: Pubkey,
    /// Second party
    pub party_b: Pubkey,
    /// Party A's deposit, fixed at open time
    pub deposit_a: u64,
    /// Party B's deposit, fixed at open time
    pub deposit_b: u64,
    /// Party A's current balance
    pub balance_a: u64,
    /// Party B's current balance
    pub balance_b: u64,
    /// State nonce, strictly increasing across accepted balance statements
    pub nonce: u64,
    /// Channel status
    pub status: ChannelStatus,
    /// Opening timestamp
    pub opened_at: i64,
    /// Closing timestamp, set exactly when the channel is closed
    pub closed_at: Option<i64>,
}

/// Conservation: the balances allocate exactly the deposited pool.
pub open spec fn channel_conserved(c: PaymentChannel) -> bool {
    c.balance_a + c.balance_b == c.deposit_a + c.deposit_b
}

impl PaymentChannel {
    /// Well-formedness: conservation, an escrow pool that fits the
    /// balance type, valid timestamps, and a closing timestamp exactly
    /// when closed.
    pub open spec fn wf(self) -> bool {
        &&& channel_conserved(self)
        &&& self.deposit_a + self.deposit_b <= u64::MAX
        &&& self.opened_at >= 0
        &&& (self.status is Closed <==> self.closed_at is Some)
        &&& (self.closed_at matches Some(t) ==> t >= 0)
    }
}

/// Notification of a successful channel open.
#[derive(Clone, Copy, Debug)]
pub struct ChannelOpened {
    pub channel_id: Pubkey,
    pub party_a: Pubkey,
    pub party_b: Pubkey,
    pub deposit: u64,
}

/// Notification of a successful channel close.
#[derive(Clone, Copy, Debug)]
pub struct ChannelClosed {
    pub channel_id: Pubkey,
    pub final_balance_a: u64,
    pub final_balance_b: u64,
}

/// When a closing balance statement is accepted: the channel is open,
/// the nonce strictly increases, and the statement conserves the pool.
pub open spec fn close_accepted(
    c: PaymentChannel,
    final_balance_a: u64,
    final_balance_b: u64,
    nonce: u64,
) -> bool {
    &&& c.status is Open
    &&& nonce > c.nonce
    &&& final_balance_a + final_balance_b == c.deposit_a + c.deposit_b
}

/// The state an accepted close commits: the statement's balances and
/// nonce, status `Closed`, and the closing time.
pub open spec fn close_state(
    c: PaymentChannel,
    final_balance_a: u64,
    final_balance_b: u64,
    nonce: u64,
    now: i64,
) -> PaymentChannel {
    PaymentChannel {
        balance_a: final_balance_a,
        balance_b: final_balance_b,
        nonce: nonce,
        status: ChannelStatus::Closed,
        closed_at: Some(now),
        ..c
    }
}

/// Open a payment channel funded single-sidedly by `party_a`: the whole
/// deposit starts on A's side of the pool, and the host owes one transfer
/// of the deposit from `party_a` into the channel escrow.
pub fn open_channel(
    channel_id: Pubkey,
    party_a: Pubkey,
    party_b: Pubkey,
    deposit: u64,
    escrow: Pubkey,
    now: i64,
) -> (r: Result<(PaymentChannel, Transfer, ChannelOpened), AgentFundError>)
    requires
        now >= 0,
    ensures
        r is Ok <==> deposit > 0,
        deposit == 0 ==> r == Err::<(PaymentChannel, Transfer, ChannelOpened), _>(AgentFundError::InvalidAmount),
        r matches Ok(p) ==> {
            &&& p.0.wf()
            &&& channel_conserved(p.0)
            &&& p.0.id == channel_id
            &&& p.0.party_a == party_a
            &&& p.0.party_b == party_b
            &&& p.0.deposit_a == deposit
            &&& p.0.deposit_b == 0
            &&& p.0.balance_a == deposit
            &&& p.0.balance_b == 0
            &&& p.0.nonce == 0
            &&& p.0.status is Open
            &&& p.0.opened_at == now
            &&& p.0.closed_at is None
            &&& p.1.from == party_a
            &&& p.1.to == escrow
            &&& p.1.amount == deposit
            &&& p.2.channel_id == channel_id
            &&& p.2.party_a == party_a
            &&& p.2.party_b == party_b
            &&& p.2.deposit == deposit
        },
{
    if deposit == 0 {
        return Err(AgentFundError::InvalidAmount);
    }

    let channel = PaymentChannel {
        id: channel_id,
        party_a,
        party_b,
        deposit_a: deposit,
        deposit_b: 0,
        balance_a: deposit,
        balance_b: 0,
        nonce: 0,
        status: ChannelStatus::Open,
        opened_at: now,
        closed_at: None,
    };
    let transfer = Transfer { from: party_a, to: escrow, amount: deposit };
    let event = ChannelOpened { channel_id, party_a, party_b, deposit };
    Ok((channel, transfer, event))
}

/// Close an open channel with a co-authorized final balance statement.
/// The statement must carry a strictly larger nonce (replay protection)
/// and balances that sum exactly to the deposited pool (conservation);
/// any statement that would mint or burn value is rejected.
pub fn close_channel(
    channel: &mut PaymentChannel,
    final_balance_a: u64,
    final_balance_b: u64,
    nonce: u64,
    now: i64,
) -> (r: Result<ChannelClosed, AgentFundError>)
    requires
        old(channel).wf(),
        now >= 0,
    ensures
        r is Ok <==> close_accepted(*old(channel), final_balance_a, final_balance_b, nonce),
        !(old(channel).status is Open) ==> r == Err::<ChannelClosed, _>(AgentFundError::ChannelNotOpen),
        old(channel).status is Open && nonce <= old(channel).nonce
            ==> r == Err::<ChannelClosed, _>(AgentFundError::InvalidNonce),
        old(channel).status is Open && nonce > old(channel).nonce
            && final_balance_a + final_balance_b != old(channel).deposit_a + old(channel).deposit_b
            ==> r == Err::<ChannelClosed, _>(AgentFundError::BalanceMismatch),
        r is Err ==> *final(channel) == *old(channel),
        r matches Ok(ev) ==> {
            &&& *final(channel) == close_state(*old(channel), final_balance_a, final_balance_b, nonce, now)
            &&& final(channel).wf()
            &&& channel_conserved(*final(channel))
            &&& final(channel).nonce > old(channel).nonce
            &&& ev.channel_id == old(channel).id
            &&& ev.final_balance_a == final_balance_a
            &&& ev.final_balance_b == final_balance_b
        },
{
    match channel.status {
        ChannelStatus::Open => {},
        _ => {
            return Err(AgentFundError::ChannelNotOpen);
        },
    }
    if nonce <= channel.nonce {
        return Err(AgentFundError::InvalidNonce);
    }
    let statement_sum: u128 = final_balance_a as u128 + final_balance_b as u128;
    let pool_sum: u128 = channel.deposit_a as u128 + channel.deposit_b as u128;
    if statement_sum != pool_sum {
        return Err(AgentFundError::BalanceMismatch);
    }

    channel.balance_a = final_balance_a;
    channel.balance_b = final_balance_b;
    channel.nonce = nonce;
    channel.status = ChannelStatus::Closed;
    channel.closed_at = Some(now);

    Ok(ChannelClosed {
        channel_id: channel.id,
        final_balance_a,
        final_balance_b,
    })
}

/// Law: an accepted close conserves the pool — the committed state's
/// balances sum to its deposits, and the deposits themselves are
/// unchanged. Together with `open_channel` establishing conservation,
/// no sequence of valid opens and closes can change the sum of balances
/// away from the sum of deposits.
pub proof fn lemma_close_conserves(
    c: PaymentChannel,
    final_balance_a: u64,
    final_balance_b: u64,
    nonce: u64,
    now: i64,
)
    requires
        close_accepted(c, final_balance_a, final_balance_b, nonce),
    ensures
        channel_conserved(close_state(c, final_balance_a, final_balance_b, nonce, now)),
        close_state(c, final_balance_a, final_balance_b, nonce, now).deposit_a == c.deposit_a,
        close_state(c, final_balance_a, final_balance_b, nonce, now).deposit_b == c.deposit_b,
{
}

/// Law: a closed channel is terminal. Once a close with nonce `nonce` is
/// accepted, no later balance statement is accepted on the committed
/// state — whatever its nonce, so in particular none with a nonce at or
/// below the accepted one.
pub proof fn lemma_closed_channel_terminal(
    c: PaymentChannel,
    final_balance_a: u64,
    final_balance_b: u64,
    nonce: u64,
    now: i64,
    later_balance_a: u64,
    later_balance_b: u64,
    later_nonce: u64,
)
    requires
        close_accepted(c, final_balance_a, final_balance_b, nonce),
    ensures
        !close_accepted(
            close_state(c, final_balance_a, final_balance_b, nonce, now),
            later_balance_a,
            later_balance_b,
            later_nonce,
        ),
{
}

} // verus!
