//! Ledger state machine for autonomous-agent micropayments.
//!
//! The crate tracks four entity families — treasuries, invoices and batch
//! settlements, bilateral payment channels, and escrow-backed service
//! requests with disputes — and proves that every transition conserves
//! value, rejects stale or duplicate submissions, and leaves all entities
//! unchanged on every failure path.
//!
//! The surrounding host supplies the external collaborators: the clock
//! (every transition takes the current time as an argument), the atomic
//! value-transfer capability (transitions return the [`transfer::Transfer`]
//! directives the host must execute as one unit with the state commit),
//! and the keyed entity store.

use vstd::prelude::*;

pub mod batch;
pub mod bytes;
pub mod channel;
pub mod dispute;
pub mod errors;
pub mod ids;
pub mod invoice;
pub mod registry;
pub mod service;
pub mod transfer;
pub mod treasury;

verus! {

/// Maximum invoices per batch settlement
pub const MAX_BATCH_SIZE: usize = 50;

/// Maximum memo length in bytes
pub const MAX_MEMO_LENGTH: usize = 256;

/// Dispute window in seconds (24 hours)
pub const DISPUTE_WINDOW_SECONDS: i64 = 86400;

/// Maximum dispute reason length in bytes
pub const MAX_DISPUTE_REASON_LENGTH: usize = 512;

/// Maximum length for an agent name in bytes
pub const MAX_NAME_LENGTH: usize = 64;

/// Maximum length for a service description in bytes
pub const MAX_DESCRIPTION_LENGTH: usize = 256;

/// Maximum number of service capabilities
pub const MAX_CAPABILITIES: usize = 10;

/// Maximum length per capability in bytes
pub const MAX_CAPABILITY_LENGTH: usize = 32;

} // verus!
