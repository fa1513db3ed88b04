//! Escrow custody engine: a depositor's funds are held in trust and released
//! to a beneficiary once two of the three parties approve, with a dispute path
//! on which a neutral arbiter decides alone.
//!
//! The engine is a pure state machine. Authentication of the caller, moving
//! value in and out of custody and persisting records are left to the host:
//! each operation takes an authenticated caller and hands back the fund
//! movement that the host must perform for the transition to take effect.

pub mod access;
pub mod agreement;
pub mod dispute;
pub mod errors;
pub mod escrow_impl;
pub mod laws;
pub mod profile;
pub mod types;

pub use access::{AccessControl, Action};
pub use agreement::Contract;
pub use dispute::DisputeHandler;
pub use errors::{Error, EscrowError};
pub use escrow_impl::EscrowContract;
pub use profile::{AccountType, ProfileContract};
pub use types::{Escrow, EscrowStatus, Movement, PartyId, ReleaseApproval};
