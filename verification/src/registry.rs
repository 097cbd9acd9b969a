//! The agent registry: a capability and price catalog.
//!
//! A profile lists what an agent offers and at what base price; service
//! requests validate capability and price against it. All catalog fields
//! are bounded and validated eagerly at the boundary.

use vstd::prelude::*;
use crate::MAX_CAPABILITIES;
use crate::MAX_CAPABILITY_LENGTH;
use crate::MAX_DESCRIPTION_LENGTH;
use crate::MAX_NAME_LENGTH;
use crate::bytes::bytes_eq;
use crate::bytes::clone_byte_lists;
use crate::bytes::clone_bytes;
use crate::errors::AgentFundError;
use crate::ids::Pubkey;
use crate::ids::id_eq;

verus! {

/// A registered agent's catalog entry.
#[derive(Clone, Debug)]
pub struct AgentProfile {
    /// Agent's identity (owner)
    pub owner: Pubkey,
    /// Agent's display name
    pub name: Vec<u8>,
    /// Description of the agent's services
    pub description: Vec<u8>,
    /// Service capability labels
    pub capabilities: Vec<Vec<u8>>,
    /// Base price per request in base units
    pub base_price: u64,
    /// Treasury key for payments
    pub treasury: Pubkey,
    /// Whether the agent is currently active
    pub is_active: bool,
    /// Total requests served
    pub total_requests: u64,
    /// Total earnings
    pub total_earnings: u64,
    /// Registration timestamp
    pub registered_at: i64,
    /// Last active timestamp
    pub last_active_at: i64,
    /// Key-derivation bump seed, kept for the host's store
    pub bump: u8,
}

/// Every capability label in `caps` is within the per-label length cap.
pub open spec fn caps_all_bounded(caps: Seq<Vec<u8>>) -> bool {
    forall|i: int| 0 <= i < caps.len() ==> #[trigger] caps[i]@.len() <= MAX_CAPABILITY_LENGTH
}

impl AgentProfile {
    /// Well-formedness: every catalog field within its bound and valid
    /// timestamps.
    pub open spec fn wf(self) -> bool {
        &&& self.name@.len() <= MAX_NAME_LENGTH
        &&& self.description@.len() <= MAX_DESCRIPTION_LENGTH
        &&& self.capabilities@.len() <= MAX_CAPABILITIES
        &&& caps_all_bounded(self.capabilities@)
        &&& self.registered_at >= 0
        &&& self.last_active_at >= 0
    }
}

/// Notification of a successful agent registration.
#[derive(Clone, Debug)]
pub struct AgentRegistered {
    pub agent: Pubkey,
    pub name: Vec<u8>,
    pub capabilities: Vec<Vec<u8>>,
    pub base_price: u64,
}

/// Notification of a successful profile update.
#[derive(Clone, Copy, Debug)]
pub struct AgentUpdated {
    pub agent: Pubkey,
    pub is_active: bool,
}

/// Check that every capability label is within the per-label length cap.
pub fn caps_within_bounds(caps: &Vec<Vec<u8>>) -> (r: bool)
    ensures
        r <==> caps_all_bounded(caps@),
{
    let n: usize = caps.len();
    let mut i: usize = 0;
    while i < n
        invariant
            0 <= i <= n,
            n == caps@.len(),
            forall|j: int| 0 <= j < i ==> #[trigger] caps@[j]@.len() <= MAX_CAPABILITY_LENGTH,
        decreases n - i,
    {
        if caps[i].len() > MAX_CAPABILITY_LENGTH {
            assert(!caps_all_bounded(caps@));
            return false;
        }
        i = i + 1;
    }
    true
}

/// The capability list `caps` carries a label equal to `cap`.
pub open spec fn caps_contain(caps: Seq<Vec<u8>>, cap: Seq<u8>) -> bool {
    exists|i: int| 0 <= i < caps.len() && #[trigger] caps[i]@ == cap
}

/// Check whether the profile's catalog lists the capability.
pub fn profile_supports(profile: &AgentProfile, capability: &Vec<u8>) -> (r: bool)
    ensures
        r <==> caps_contain(profile.capabilities@, capability@),
{
    let n: usize = profile.capabilities.len();
    let mut i: usize = 0;
    while i < n
        invariant
            0 <= i <= n,
            n == profile.capabilities@.len(),
            forall|j: int| 0 <= j < i ==> #[trigger] profile.capabilities@[j]@ != capability@,
        decreases n - i,
    {
        if bytes_eq(&profile.capabilities[i], capability) {
            assert(caps_contain(profile.capabilities@, capability@));
            return true;
        }
        i = i + 1;
    }
    false
}

/// When a registration is accepted: every catalog field within its bound.
pub open spec fn register_accepted(
    name_len: nat,
    description_len: nat,
    caps: Seq<Vec<u8>>,
) -> bool {
    &&& name_len <= MAX_NAME_LENGTH
    &&& description_len <= MAX_DESCRIPTION_LENGTH
    &&& caps.len() <= MAX_CAPABILITIES
    &&& caps_all_bounded(caps)
}

/// Register an agent in the marketplace with a bounded catalog entry.
/// The fresh profile is active with zeroed counters.
pub fn register_agent(
    owner: Pubkey,
    treasury: Pubkey,
    name: Vec<u8>,
    description: Vec<u8>,
    capabilities: Vec<Vec<u8>>,
    base_price: u64,
    bump: u8,
    now: i64,
) -> (r: Result<(AgentProfile, AgentRegistered), AgentFundError>)
    requires
        now >= 0,
    ensures
        r is Ok <==> register_accepted(name@.len(), description@.len(), capabilities@),
        name@.len() > MAX_NAME_LENGTH
            ==> r == Err::<(AgentProfile, AgentRegistered), _>(AgentFundError::NameTooLong),
        name@.len() <= MAX_NAME_LENGTH && description@.len() > MAX_DESCRIPTION_LENGTH
            ==> r == Err::<(AgentProfile, AgentRegistered), _>(AgentFundError::DescriptionTooLong),
        name@.len() <= MAX_NAME_LENGTH && description@.len() <= MAX_DESCRIPTION_LENGTH
            && capabilities@.len() > MAX_CAPABILITIES
            ==> r == Err::<(AgentProfile, AgentRegistered), _>(AgentFundError::TooManyCapabilities),
        name@.len() <= MAX_NAME_LENGTH && description@.len() <= MAX_DESCRIPTION_LENGTH
            && capabilities@.len() <= MAX_CAPABILITIES && !caps_all_bounded(capabilities@)
            ==> r == Err::<(AgentProfile, AgentRegistered), _>(AgentFundError::CapabilityTooLong),
        r matches Ok(p) ==> {
            &&& p.0.wf()
            &&& p.0.owner == owner
            &&& p.0.name@ == name@
            &&& p.0.description@ == description@
            &&& p.0.capabilities@ == capabilities@
            &&& p.0.base_price == base_price
            &&& p.0.treasury == treasury
            &&& p.0.is_active
            &&& p.0.total_requests == 0
            &&& p.0.total_earnings == 0
            &&& p.0.registered_at == now
            &&& p.0.last_active_at == now
            &&& p.0.bump == bump
            &&& p.1.agent == owner
            &&& p.1.name@ == name@
            &&& p.1.capabilities@.len() == capabilities@.len()
            &&& forall|i: int| 0 <= i < capabilities@.len()
                ==> #[trigger] p.1.capabilities@[i]@ == capabilities@[i]@
            &&& p.1.base_price == base_price
        },
{
    if name.len() > MAX_NAME_LENGTH {
        return Err(AgentFundError::NameTooLong);
    }
    if description.len() > MAX_DESCRIPTION_LENGTH {
        return Err(AgentFundError::DescriptionTooLong);
    }
    if capabilities.len() > MAX_CAPABILITIES {
        return Err(AgentFundError::TooManyCapabilities);
    }
    if !caps_within_bounds(&capabilities) {
        return Err(AgentFundError::CapabilityTooLong);
    }

    let event = AgentRegistered {
        agent: owner,
        name: clone_bytes(&name),
        capabilities: clone_byte_lists(&capabilities),
        base_price,
    };
    let profile = AgentProfile {
        owner,
        name,
        description,
        capabilities,
        base_price,
        treasury,
        is_active: true,
        total_requests: 0,
        total_earnings: 0,
        registered_at: now,
        last_active_at: now,
        bump,
    };
    Ok((profile, event))
}

/// When a profile update is accepted: the caller owns the profile and
/// every supplied field is within its bound.
pub open spec fn update_accepted(
    profile: AgentProfile,
    owner: Pubkey,
    name: Option<Vec<u8>>,
    description: Option<Vec<u8>>,
    capabilities: Option<Vec<Vec<u8>>>,
) -> bool {
    &&& owner == profile.owner
    &&& (name matches Some(n) ==> n@.len() <= MAX_NAME_LENGTH)
    &&& (description matches Some(d) ==> d@.len() <= MAX_DESCRIPTION_LENGTH)
    &&& (capabilities matches Some(c)
        ==> c@.len() <= MAX_CAPABILITIES && caps_all_bounded(c@))
}

/// Update an agent profile: each supplied field replaces the stored one
/// after validation, the rest are untouched, and the profile's last
/// activity time is refreshed. Only the profile's owner may update it.
pub fn update_agent_profile(
    profile: &mut AgentProfile,
    owner: Pubkey,
    name: Option<Vec<u8>>,
    description: Option<Vec<u8>>,
    capabilities: Option<Vec<Vec<u8>>>,
    base_price: Option<u64>,
    is_active: Option<bool>,
    now: i64,
) -> (r: Result<AgentUpdated, AgentFundError>)
    requires
        old(profile).wf(),
        now >= 0,
    ensures
        r is Ok <==> update_accepted(*old(profile), owner, name, description, capabilities),
        owner != old(profile).owner ==> r == Err::<AgentUpdated, _>(AgentFundError::Unauthorized),
        owner == old(profile).owner
            && (name matches Some(n) && n@.len() > MAX_NAME_LENGTH)
            ==> r == Err::<AgentUpdated, _>(AgentFundError::NameTooLong),
        owner == old(profile).owner
            && (name matches Some(n) ==> n@.len() <= MAX_NAME_LENGTH)
            && (description matches Some(d) && d@.len() > MAX_DESCRIPTION_LENGTH)
            ==> r == Err::<AgentUpdated, _>(AgentFundError::DescriptionTooLong),
        owner == old(profile).owner
            && (name matches Some(n) ==> n@.len() <= MAX_NAME_LENGTH)
            && (description matches Some(d) ==> d@.len() <= MAX_DESCRIPTION_LENGTH)
            && (capabilities matches Some(c) && c@.len() > MAX_CAPABILITIES)
            ==> r == Err::<AgentUpdated, _>(AgentFundError::TooManyCapabilities),
        owner == old(profile).owner
            && (name matches Some(n) ==> n@.len() <= MAX_NAME_LENGTH)
            && (description matches Some(d) ==> d@.len() <= MAX_DESCRIPTION_LENGTH)
            && (capabilities matches Some(c)
                && c@.len() <= MAX_CAPABILITIES && !caps_all_bounded(c@))
            ==> r == Err::<AgentUpdated, _>(AgentFundError::CapabilityTooLong),
        r is Err ==> *final(profile) == *old(profile),
        r matches Ok(ev) ==> {
            &&& final(profile).wf()
            &&& (name matches Some(n) ==> final(profile).name@ == n@)
            &&& (name is None ==> final(profile).name == old(profile).name)
            &&& (description matches Some(d) ==> final(profile).description@ == d@)
            &&& (description is None ==> final(profile).description == old(profile).description)
            &&& (capabilities matches Some(c) ==> final(profile).capabilities@ == c@)
            &&& (capabilities is None
                ==> final(profile).capabilities == old(profile).capabilities)
            &&& (base_price matches Some(p) ==> final(profile).base_price == p)
            &&& (base_price is None ==> final(profile).base_price == old(profile).base_price)
            &&& (is_active matches Some(a) ==> final(profile).is_active == a)
            &&& (is_active is None ==> final(profile).is_active == old(profile).is_active)
            &&& final(profile).owner == old(profile).owner
            &&& final(profile).treasury == old(profile).treasury
            &&& final(profile).total_requests == old(profile).total_requests
            &&& final(profile).total_earnings == old(profile).total_earnings
            &&& final(profile).registered_at == old(profile).registered_at
            &&& final(profile).bump == old(profile).bump
            &&& final(profile).last_active_at == now
            &&& ev.agent == old(profile).owner
            &&& ev.is_active == final(profile).is_active
        },
{
    if !id_eq(&owner, &profile.owner) {
        return Err(AgentFundError::Unauthorized);
    }
    match &name {
        Some(n) => {
            if n.len() > MAX_NAME_LENGTH {
                return Err(AgentFundError::NameTooLong);
            }
        },
        None => {},
    }
    match &description {
        Some(d) => {
            if d.len() > MAX_DESCRIPTION_LENGTH {
                return Err(AgentFundError::DescriptionTooLong);
            }
        },
        None => {},
    }
    match &capabilities {
        Some(caps) => {
            if caps.len() > MAX_CAPABILITIES {
                return Err(AgentFundError::TooManyCapabilities);
            }
            if !caps_within_bounds(caps) {
                return Err(AgentFundError::CapabilityTooLong);
            }
        },
        None => {},
    }

    match name {
        Some(n) => {
            profile.name = n;
        },
        None => {},
    }
    match description {
        Some(d) => {
            profile.description = d;
        },
        None => {},
    }
    match capabilities {
        Some(caps) => {
            profile.capabilities = caps;
        },
        None => {},
    }
    match base_price {
        Some(p) => {
            profile.base_price = p;
        },
        None => {},
    }
    match is_active {
        Some(a) => {
            profile.is_active = a;
        },
        None => {},
    }
    profile.last_active_at = now;

    Ok(AgentUpdated { agent: profile.owner, is_active: profile.is_active })
}

} // verus!
