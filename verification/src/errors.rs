//! The error taxonomy of the protocol.
//!
//! Every rejected transition returns one of these and leaves all entities
//! unchanged; no error is retryable without the caller first correcting
//! the condition.

use vstd::prelude::*;

verus! {

/// Why a transition was rejected.
#[derive(Clone, Copy, Debug, PartialEq, Eq, Structural)]
pub enum AgentFundError {
    /// Memo exceeds maximum length
    MemoTooLong,
    /// Invalid amount
    InvalidAmount,
    /// Invalid expiry time
    InvalidExpiry,
    /// Invoice is not in pending status
    InvoiceNotPending,
    /// Invoice has expired
    InvoiceExpired,
    /// Batch exceeds maximum size
    BatchTooLarge,
    /// Batch cannot be empty
    EmptyBatch,
    /// Channel is not open
    ChannelNotOpen,
    /// Invalid state nonce
    InvalidNonce,
    /// Final balances do not match total deposits
    BalanceMismatch,
    /// Name exceeds maximum length
    NameTooLong,
    /// Description exceeds maximum length
    DescriptionTooLong,
    /// Too many capabilities
    TooManyCapabilities,
    /// Capability name too long
    CapabilityTooLong,
    /// Agent is not active
    AgentNotActive,
    /// Capability not supported by provider
    CapabilityNotSupported,
    /// Request is not pending
    RequestNotPending,
    /// Unauthorized provider
    UnauthorizedProvider,
    /// Cannot dispute this request
    CannotDispute,
    /// Dispute window has closed
    DisputeWindowClosed,
    /// Dispute is not open
    DisputeNotOpen,
    /// Invalid split percentage
    InvalidSplitPct,
    /// Caller is not a party to the entity
    Unauthorized,
}

} // verus!
