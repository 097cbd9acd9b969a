//! Time-boxed disputes over service requests.
//!
//! Either party may challenge a pending or completed request within the
//! dispute window. A dispute resolves exactly once, by a closed set of
//! policies — full refund, full payment, or a percentage split — and the
//! resulting payout conserves the escrowed amount exactly.

use vstd::prelude::*;
use vstd::arithmetic::div_mod::lemma_fundamental_div_mod;
use crate::DISPUTE_WINDOW_SECONDS;
use crate::MAX_DISPUTE_REASON_LENGTH;
use crate::bytes::clone_bytes;
use crate::errors::AgentFundError;
use crate::ids::Pubkey;
use crate::ids::id_eq;
use crate::service::RequestStatus;
use crate::service::ServiceRequest;

verus! {

/// Lifecycle state of a dispute.
#[derive(Clone, Copy, Debug, PartialEq, Eq, Structural)]
pub enum DisputeStatus {
    Open,
    UnderReview,
    Resolved,
    Expired,
}

impl Default for DisputeStatus {
    /// A fresh dispute is open.
    fn default() -> (s: Self)
        ensures
            s is Open,
    {
        DisputeStatus::Open
    }
}

/// How a dispute is settled.
#[derive(Clone, Copy, Debug, PartialEq, Eq, Structural)]
pub enum DisputeResolution {
    /// Full refund to the requester
    RefundRequester,
    /// Full payment to the provider
    PayProvider,
    /// Split payment by percentage owed to the requester
    Split { requester_pct: u8 },
}

/// A challenge against a service request, attached 1:1 to it.
#[derive(Clone, Debug)]
pub struct Dispute {
    /// Request ID being disputed
    pub request_id: Pubkey,
    /// Who initiated the dispute
    pub initiator: Pubkey,
    /// Reason for the dispute, bounded length
    pub reason: Vec<u8>,
    /// Dispute status
    pub status: DisputeStatus,
    /// Creation timestamp
    pub created_at: i64,
    /// Resolution timestamp, set exactly when resolved
    pub resolved_at: Option<i64>,
    /// Resolution details, set exactly when resolved
    pub resolution: Option<DisputeResolution>,
}

impl Dispute {
    /// Well-formedness: a bounded reason, valid timestamps, the
    /// resolution fields set exactly when resolved, and any recorded
    /// split percentage valid.
    pub open spec fn wf(self) -> bool {
        &&& self.reason@.len() <= MAX_DISPUTE_REASON_LENGTH
        &&& self.created_at >= 0
        &&& (self.status is Resolved <==> self.resolved_at is Some)
        &&& (self.status is Resolved <==> self.resolution is Some)
        &&& (self.resolved_at matches Some(t) ==> t >= 0)
        &&& (self.resolution matches Some(DisputeResolution::Split { requester_pct })
            ==> requester_pct <= 100)
    }
}

/// How the escrow of a resolved request is divided.
#[derive(Clone, Copy, Debug)]
pub struct Payout {
    /// Share released to the requester
    pub to_requester: u64,
    /// Share released to the provider
    pub to_provider: u64,
}

/// Notification of a successful dispute initiation.
#[derive(Clone, Debug)]
pub struct DisputeInitiated {
    pub request_id: Pubkey,
    pub initiator: Pubkey,
    pub reason: Vec<u8>,
}

/// Notification of a successful dispute resolution.
#[derive(Clone, Copy, Debug)]
pub struct DisputeResolved {
    pub request_id: Pubkey,
    pub resolution: DisputeResolution,
}

/// The moment the dispute window opens: completion time if the request
/// was completed, creation time otherwise.
pub open spec fn dispute_reference_time(request: ServiceRequest) -> i64 {
    match request.completed_at {
        Some(t) => t,
        None => request.created_at,
    }
}

/// The window is open while no more than `DISPUTE_WINDOW_SECONDS` have
/// passed since the reference time.
pub open spec fn within_dispute_window(request: ServiceRequest, now: i64) -> bool {
    now - dispute_reference_time(request) <= DISPUTE_WINDOW_SECONDS
}

/// When a dispute initiation is accepted: the initiator is a party to
/// the request, the request is pending or completed, and the window is
/// still open.
pub open spec fn dispute_accepted(
    request: ServiceRequest,
    initiator: Pubkey,
    now: i64,
) -> bool {
    &&& initiator == request.requester || initiator == request.provider
    &&& request.status is Pending || request.status is Completed
    &&& within_dispute_window(request, now)
}

/// When a resolution is accepted: the resolver is a party to the
/// request, the dispute is open, and any split percentage is valid.
pub open spec fn resolve_accepted(
    dispute: Dispute,
    request: ServiceRequest,
    resolver: Pubkey,
    resolution: DisputeResolution,
) -> bool {
    &&& resolver == request.requester || resolver == request.provider
    &&& dispute.status is Open
    &&& (resolution matches DisputeResolution::Split { requester_pct } ==> requester_pct <= 100)
}

/// The requester's share of a `requester_pct`% split of `amount`.
pub open spec fn split_to_requester(amount: u64, requester_pct: u8) -> u64 {
    (amount * requester_pct / 100) as u64
}

/// The requester's share of the escrow under a resolution.
pub open spec fn resolved_to_requester(resolution: DisputeResolution, amount: u64) -> u64 {
    match resolution {
        DisputeResolution::RefundRequester => amount,
        DisputeResolution::PayProvider => 0,
        DisputeResolution::Split { requester_pct } => split_to_requester(amount, requester_pct),
    }
}

/// The provider's share of the escrow under a resolution: exactly the
/// remainder of the requester's share.
pub open spec fn resolved_to_provider(resolution: DisputeResolution, amount: u64) -> u64 {
    (amount - resolved_to_requester(resolution, amount)) as u64
}

/// The request status a resolution commits: refunds end `Refunded`, full
/// or split payments end `Completed`.
pub open spec fn resolved_request_status(resolution: DisputeResolution) -> RequestStatus {
    match resolution {
        DisputeResolution::RefundRequester => RequestStatus::Refunded,
        DisputeResolution::PayProvider => RequestStatus::Completed,
        DisputeResolution::Split { requester_pct: _ } => RequestStatus::Completed,
    }
}

/// A percentage share never exceeds the whole.
pub proof fn lemma_split_share_bounded(amount: u64, requester_pct: u8)
    requires
        requester_pct <= 100,
    ensures
        split_to_requester(amount, requester_pct) <= amount,
        split_to_requester(amount, requester_pct) == amount * requester_pct / 100,
{
    let product = amount * requester_pct;
    assert(product <= amount * 100) by (nonlinear_arith)
        requires
            requester_pct <= 100,
            amount >= 0,
            product == amount * requester_pct,
    ;
    lemma_fundamental_div_mod(product, 100);
    assert(100 * (product / 100) <= product);
    assert(product / 100 <= amount);
}

/// Law: every resolution divides the escrowed amount exactly — the
/// requester's and provider's shares sum to the amount, with neither
/// share exceeding it. For `Split { requester_pct }` the requester
/// receives `requester_pct`% (rounded down) and the provider the exact
/// remainder, for every percentage from 0 to 100.
pub proof fn lemma_resolution_conserves(resolution: DisputeResolution, amount: u64)
    requires
        resolution matches DisputeResolution::Split { requester_pct } ==> requester_pct <= 100,
    ensures
        resolved_to_requester(resolution, amount) + resolved_to_provider(resolution, amount)
            == amount,
        resolved_to_requester(resolution, amount) <= amount,
        resolved_to_provider(resolution, amount) <= amount,
{
    match resolution {
        DisputeResolution::RefundRequester => {},
        DisputeResolution::PayProvider => {},
        DisputeResolution::Split { requester_pct } => {
            lemma_split_share_bounded(amount, requester_pct);
        },
    }
}

/// Initiate a dispute on a pending or completed request: either party
/// may challenge within the 24-hour window after creation (or completion,
/// if the request was completed). The request is frozen as `Disputed`
/// and an open dispute record is created.
pub fn initiate_dispute(
    request: &mut ServiceRequest,
    initiator: Pubkey,
    reason: Vec<u8>,
    now: i64,
) -> (r: Result<(Dispute, DisputeInitiated), AgentFundError>)
    requires
        old(request).wf(),
        now >= 0,
        reason@.len() <= MAX_DISPUTE_REASON_LENGTH,
    ensures
        r is Ok <==> dispute_accepted(*old(request), initiator, now),
        initiator != old(request).requester && initiator != old(request).provider
            ==> r == Err::<(Dispute, DisputeInitiated), _>(AgentFundError::Unauthorized),
        (initiator == old(request).requester || initiator == old(request).provider)
            && !(old(request).status is Pending || old(request).status is Completed)
            ==> r == Err::<(Dispute, DisputeInitiated), _>(AgentFundError::CannotDispute),
        (initiator == old(request).requester || initiator == old(request).provider)
            && (old(request).status is Pending || old(request).status is Completed)
            && !within_dispute_window(*old(request), now)
            ==> r == Err::<(Dispute, DisputeInitiated), _>(AgentFundError::DisputeWindowClosed),
        r is Err ==> *final(request) == *old(request),
        r matches Ok(p) ==> {
            &&& final(request).status is Disputed
            &&& final(request).wf()
            &&& final(request).id == old(request).id
            &&& final(request).requester == old(request).requester
            &&& final(request).provider == old(request).provider
            &&& final(request).capability@ == old(request).capability@
            &&& final(request).amount == old(request).amount
            &&& final(request).created_at == old(request).created_at
            &&& final(request).completed_at == old(request).completed_at
            &&& final(request).result_hash == old(request).result_hash
            &&& p.0.wf()
            &&& p.0.request_id == old(request).id
            &&& p.0.initiator == initiator
            &&& p.0.reason@ == reason@
            &&& p.0.status is Open
            &&& p.0.created_at == now
            &&& p.0.resolved_at is None
            &&& p.0.resolution is None
            &&& p.1.request_id == old(request).id
            &&& p.1.initiator == initiator
            &&& p.1.reason@ == reason@
        },
{
    if !id_eq(&initiator, &request.requester) && !id_eq(&initiator, &request.provider) {
        return Err(AgentFundError::Unauthorized);
    }
    match request.status {
        RequestStatus::Pending => {},
        RequestStatus::Completed => {},
        _ => {
            return Err(AgentFundError::CannotDispute);
        },
    }
    let reference_time: i64 = match request.completed_at {
        Some(t) => t,
        None => request.created_at,
    };
    if now - reference_time > DISPUTE_WINDOW_SECONDS {
        return Err(AgentFundError::DisputeWindowClosed);
    }

    request.status = RequestStatus::Disputed;

    let event = DisputeInitiated {
        request_id: request.id,
        initiator,
        reason: clone_bytes(&reason),
    };
    let dispute = Dispute {
        request_id: request.id,
        initiator,
        reason,
        status: DisputeStatus::Open,
        created_at: now,
        resolved_at: None,
        resolution: None,
    };
    Ok((dispute, event))
}

/// Resolve an open dispute by one of the closed policies. The escrowed
/// amount resolves to exactly one division between requester and
/// provider — the returned payout sums to the amount — and the host owes
/// the corresponding transfers out of the request escrow, committed
/// atomically with the new state. Either party may submit the agreed
/// resolution.
pub fn resolve_dispute(
    dispute: &mut Dispute,
    request: &mut ServiceRequest,
    resolver: Pubkey,
    resolution: DisputeResolution,
    now: i64,
) -> (r: Result<(Payout, DisputeResolved), AgentFundError>)
    requires
        old(dispute).wf(),
        old(request).wf(),
        old(dispute).request_id == old(request).id,
        now >= 0,
    ensures
        r is Ok <==> resolve_accepted(*old(dispute), *old(request), resolver, resolution),
        resolver != old(request).requester && resolver != old(request).provider
            ==> r == Err::<(Payout, DisputeResolved), _>(AgentFundError::Unauthorized),
        (resolver == old(request).requester || resolver == old(request).provider)
            && !(old(dispute).status is Open)
            ==> r == Err::<(Payout, DisputeResolved), _>(AgentFundError::DisputeNotOpen),
        (resolver == old(request).requester || resolver == old(request).provider)
            && old(dispute).status is Open
            && (resolution matches DisputeResolution::Split { requester_pct }
                && requester_pct > 100)
            ==> r == Err::<(Payout, DisputeResolved), _>(AgentFundError::InvalidSplitPct),
        r is Err ==> *final(dispute) == *old(dispute) && *final(request) == *old(request),
        r matches Ok(p) ==> {
            &&& final(dispute).wf()
            &&& final(dispute).status is Resolved
            &&& final(dispute).resolved_at == Some(now)
            &&& final(dispute).resolution == Some(resolution)
            &&& final(dispute).request_id == old(dispute).request_id
            &&& final(dispute).initiator == old(dispute).initiator
            &&& final(dispute).reason@ == old(dispute).reason@
            &&& final(dispute).created_at == old(dispute).created_at
            &&& final(request).wf()
            &&& final(request).status == resolved_request_status(resolution)
            &&& final(request).id == old(request).id
            &&& final(request).requester == old(request).requester
            &&& final(request).provider == old(request).provider
            &&& final(request).capability@ == old(request).capability@
            &&& final(request).amount == old(request).amount
            &&& final(request).created_at == old(request).created_at
            &&& final(request).completed_at == old(request).completed_at
            &&& final(request).result_hash == old(request).result_hash
            &&& p.0.to_requester == resolved_to_requester(resolution, old(request).amount)
            &&& p.0.to_provider == resolved_to_provider(resolution, old(request).amount)
            &&& p.0.to_requester + p.0.to_provider == old(request).amount
            &&& p.1.request_id == old(request).id
            &&& p.1.resolution == resolution
        },
{
    if !id_eq(&resolver, &request.requester) && !id_eq(&resolver, &request.provider) {
        return Err(AgentFundError::Unauthorized);
    }
    match dispute.status {
        DisputeStatus::Open => {},
        _ => {
            return Err(AgentFundError::DisputeNotOpen);
        },
    }

    let to_requester: u64 = match resolution {
        DisputeResolution::RefundRequester => {
            request.status = RequestStatus::Refunded;
            request.amount
        },
        DisputeResolution::PayProvider => {
            request.status = RequestStatus::Completed;
            0
        },
        DisputeResolution::Split { requester_pct } => {
            if requester_pct > 100 {
                return Err(AgentFundError::InvalidSplitPct);
            }
            proof {
                lemma_split_share_bounded(request.amount, requester_pct);
            }
            let share: u128 = (request.amount as u128) * (requester_pct as u128) / 100;
            request.status = RequestStatus::Completed;
            share as u64
        },
    };
    let to_provider: u64 = request.amount - to_requester;

    dispute.status = DisputeStatus::Resolved;
    dispute.resolved_at = Some(now);
    dispute.resolution = Some(resolution);

    let payout = Payout { to_requester, to_provider };
    let event = DisputeResolved { request_id: request.id, resolution };
    Ok((payout, event))
}

} // verus!
