//! Escrow-backed service requests.
//!
//! A request escrows the payment atomically with its creation and
//! resolves to exactly one of: paid to the provider (completion, or a
//! dispute resolved in the provider's favour), refunded to the
//! requester, or split between both — never more than one.

use vstd::prelude::*;
use crate::bytes::clone_bytes;
use crate::errors::AgentFundError;
use crate::ids::Pubkey;
use crate::ids::id_eq;
use crate::registry::AgentProfile;
use crate::registry::caps_contain;
use crate::registry::profile_supports;
use crate::transfer::Transfer;
use crate::treasury::Treasury;
use crate::MAX_CAPABILITY_LENGTH;

verus! {

/// Lifecycle state of a service request.
#[derive(Clone, Copy, Debug, PartialEq, Eq, Structural)]
pub enum RequestStatus {
    Pending,
    InProgress,
    Completed,
    Disputed,
    Refunded,
}

impl Default for RequestStatus {
    /// A fresh request is pending.
    fn default() -> (s: Self)
        ensures
            s is Pending,
    {
        RequestStatus::Pending
    }
}

/// An escrow-backed request for a capability from a provider.
#[derive(Clone, Debug)]
pub struct ServiceRequest {
    /// Unique request ID
    pub id: Pubkey,
    /// Requesting agent
    pub requester: Pubkey,
    /// Service provider agent
    pub provider: Pubkey,
    /// Capability being requested
    pub capability: Vec<u8>,
    /// Amount escrowed
    pub amount: u64,
    /// Request status
    pub status: RequestStatus,
    /// Creation timestamp
    pub created_at: i64,
    /// Completion timestamp (set by completion, not by dispute outcomes)
    pub completed_at: Option<i64>,
    /// Result hash for verification (set by completion)
    pub result_hash: Option<Pubkey>,
}

impl ServiceRequest {
    /// Well-formedness: a bounded capability label and valid timestamps.
    pub open spec fn wf(self) -> bool {
        &&& self.capability@.len() <= MAX_CAPABILITY_LENGTH
        &&& self.created_at >= 0
        &&& (self.completed_at matches Some(t) ==> t >= 0)
    }
}

/// Notification of a successful service request.
#[derive(Clone, Debug)]
pub struct ServiceRequested {
    pub request_id: Pubkey,
    pub requester: Pubkey,
    pub provider: Pubkey,
    pub capability: Vec<u8>,
    pub amount: u64,
}

/// Notification of a successful service completion.
#[derive(Clone, Copy, Debug)]
pub struct ServiceCompleted {
    pub request_id: Pubkey,
    pub provider: Pubkey,
    pub amount: u64,
}

/// When a service request is accepted: the provider is active, lists the
/// capability, and the offered amount meets the provider's base price.
pub open spec fn request_accepted(
    provider: AgentProfile,
    capability: Seq<u8>,
    amount: u64,
) -> bool {
    &&& provider.is_active
    &&& caps_contain(provider.capabilities@, capability)
    &&& amount >= provider.base_price
}

/// When a completion is accepted: the signer owns the provider's profile
/// and the request is still pending.
pub open spec fn complete_accepted(
    request: ServiceRequest,
    profile: AgentProfile,
    owner: Pubkey,
) -> bool {
    &&& owner == profile.owner
    &&& request.status is Pending
}

/// Request a service from a provider: validate the request against the
/// provider's catalog, and owe the host one transfer of the amount from
/// the requester into the request escrow, committed atomically with the
/// fresh pending request.
pub fn request_service(
    provider_profile: &AgentProfile,
    request_id: Pubkey,
    requester: Pubkey,
    capability: Vec<u8>,
    amount: u64,
    escrow: Pubkey,
    now: i64,
) -> (r: Result<(ServiceRequest, Transfer, ServiceRequested), AgentFundError>)
    requires
        provider_profile.wf(),
        now >= 0,
    ensures
        r is Ok <==> request_accepted(*provider_profile, capability@, amount),
        !provider_profile.is_active
            ==> r == Err::<(ServiceRequest, Transfer, ServiceRequested), _>(AgentFundError::AgentNotActive),
        provider_profile.is_active && !caps_contain(provider_profile.capabilities@, capability@)
            ==> r == Err::<(ServiceRequest, Transfer, ServiceRequested), _>(AgentFundError::CapabilityNotSupported),
        provider_profile.is_active && caps_contain(provider_profile.capabilities@, capability@)
            && amount < provider_profile.base_price
            ==> r == Err::<(ServiceRequest, Transfer, ServiceRequested), _>(AgentFundError::InvalidAmount),
        r matches Ok(p) ==> {
            &&& p.0.wf()
            &&& p.0.id == request_id
            &&& p.0.requester == requester
            &&& p.0.provider == provider_profile.owner
            &&& p.0.capability@ == capability@
            &&& p.0.amount == amount
            &&& p.0.status is Pending
            &&& p.0.created_at == now
            &&& p.0.completed_at is None
            &&& p.0.result_hash is None
            &&& p.1.from == requester
            &&& p.1.to == escrow
            &&& p.1.amount == amount
            &&& p.2.request_id == request_id
            &&& p.2.requester == requester
            &&& p.2.provider == provider_profile.owner
            &&& p.2.capability@ == capability@
            &&& p.2.amount == amount
        },
{
    if !provider_profile.is_active {
        return Err(AgentFundError::AgentNotActive);
    }
    if !profile_supports(provider_profile, &capability) {
        return Err(AgentFundError::CapabilityNotSupported);
    }
    if amount < provider_profile.base_price {
        return Err(AgentFundError::InvalidAmount);
    }

    proof {
        let i = choose|i: int|
            0 <= i < provider_profile.capabilities@.len()
                && #[trigger] provider_profile.capabilities@[i]@ == capability@;
        assert(provider_profile.capabilities@[i]@.len() <= MAX_CAPABILITY_LENGTH);
    }

    let event = ServiceRequested {
        request_id,
        requester,
        provider: provider_profile.owner,
        capability: clone_bytes(&capability),
        amount,
    };
    let request = ServiceRequest {
        id: request_id,
        requester,
        provider: provider_profile.owner,
        capability,
        amount,
        status: RequestStatus::Pending,
        created_at: now,
        completed_at: None,
        result_hash: None,
    };
    let transfer = Transfer { from: requester, to: escrow, amount };
    Ok((request, transfer, event))
}

/// Complete a pending service request: mark it completed with the result
/// hash, credit the provider's profile counters and treasury, and owe the
/// host one transfer of the escrowed amount from the request escrow to
/// the provider. Only the owner of the provider's profile may complete.
pub fn complete_service(
    request: &mut ServiceRequest,
    profile: &mut AgentProfile,
    treasury: &mut Treasury,
    owner: Pubkey,
    result_hash: Pubkey,
    escrow: Pubkey,
    now: i64,
) -> (r: Result<(Transfer, ServiceCompleted), AgentFundError>)
    requires
        old(request).wf(),
        old(profile).wf(),
        old(treasury).wf(),
        now >= 0,
        complete_accepted(*old(request), *old(profile), owner) ==> {
            &&& old(profile).total_requests < u64::MAX
            &&& old(profile).total_earnings + old(request).amount <= u64::MAX
            &&& old(treasury).total_received + old(request).amount <= u64::MAX
        },
    ensures
        r is Ok <==> complete_accepted(*old(request), *old(profile), owner),
        owner != old(profile).owner
            ==> r == Err::<(Transfer, ServiceCompleted), _>(AgentFundError::UnauthorizedProvider),
        owner == old(profile).owner && !(old(request).status is Pending)
            ==> r == Err::<(Transfer, ServiceCompleted), _>(AgentFundError::RequestNotPending),
        r is Err ==> {
            &&& *final(request) == *old(request)
            &&& *final(profile) == *old(profile)
            &&& *final(treasury) == *old(treasury)
        },
        r matches Ok(p) ==> {
            &&& final(request).wf()
            &&& final(request).status is Completed
            &&& final(request).completed_at == Some(now)
            &&& final(request).result_hash == Some(result_hash)
            &&& final(request).id == old(request).id
            &&& final(request).requester == old(request).requester
            &&& final(request).provider == old(request).provider
            &&& final(request).capability@ == old(request).capability@
            &&& final(request).amount == old(request).amount
            &&& final(request).created_at == old(request).created_at
            &&& final(profile).wf()
            &&& final(profile).total_requests == old(profile).total_requests + 1
            &&& final(profile).total_earnings == old(profile).total_earnings + old(request).amount
            &&& final(profile).last_active_at == now
            &&& final(profile).owner == old(profile).owner
            &&& final(profile).name@ == old(profile).name@
            &&& final(profile).description@ == old(profile).description@
            &&& final(profile).capabilities@ == old(profile).capabilities@
            &&& final(profile).base_price == old(profile).base_price
            &&& final(profile).treasury == old(profile).treasury
            &&& final(profile).is_active == old(profile).is_active
            &&& final(profile).registered_at == old(profile).registered_at
            &&& final(profile).bump == old(profile).bump
            &&& final(treasury).wf()
            &&& final(treasury).total_received == old(treasury).total_received + old(request).amount
            &&& final(treasury).owner == old(treasury).owner
            &&& final(treasury).bump == old(treasury).bump
            &&& final(treasury).total_settled == old(treasury).total_settled
            &&& final(treasury).pending_invoices == old(treasury).pending_invoices
            &&& final(treasury).created_at == old(treasury).created_at
            &&& p.0.from == escrow
            &&& p.0.to == old(request).provider
            &&& p.0.amount == old(request).amount
            &&& p.1.request_id == old(request).id
            &&& p.1.provider == old(request).provider
            &&& p.1.amount == old(request).amount
        },
{
    if !id_eq(&owner, &profile.owner) {
        return Err(AgentFundError::UnauthorizedProvider);
    }
    match request.status {
        RequestStatus::Pending => {},
        _ => {
            return Err(AgentFundError::RequestNotPending);
        },
    }

    request.status = RequestStatus::Completed;
    request.completed_at = Some(now);
    request.result_hash = Some(result_hash);

    profile.total_requests = profile.total_requests + 1;
    profile.total_earnings = profile.total_earnings + request.amount;
    profile.last_active_at = now;

    treasury.total_received = treasury.total_received + request.amount;

    let transfer = Transfer { from: escrow, to: request.provider, amount: request.amount };
    let event = ServiceCompleted {
        request_id: request.id,
        provider: request.provider,
        amount: request.amount,
    };
    Ok((transfer, event))
}

} // verus!
