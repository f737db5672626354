//! The token escrow: deposits, releases with a platform fee, refunds after a
//! timeout, and disputes that an administrator resolves.

mod batch;
pub mod calls;
mod contract;
pub mod laws;
pub mod model;
pub mod operations;
pub mod solvency;
mod types;

pub use batch::Batch;
pub use contract::{EscrowContract, Ledger};
pub use types::{
    BatchEntry, DataKey, Effect, Escrow, EscrowError, EscrowStatus, BPS_SCALE, MAX_FEE_BPS, TTL_MAX,
    TTL_MIN,
};
