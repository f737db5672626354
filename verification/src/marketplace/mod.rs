//! The marketplace escrow: a record for every order, an event for every change,
//! and snapshots of the locked balances for governance voting.

pub mod calls;
mod contract;
mod events;
pub mod laws;
pub mod model;
pub mod operations;
mod snapshot;
mod types;

pub use contract::{EscrowContract, Ledger};
pub use events::{Event, EventData, Topic, TopicView};
pub use snapshot::{SnapshotRecord, SnapshotView};
pub use types::{
    DataKey, Effect, EscrowError, EscrowRecord, MIN_TIMEOUT_SECS, TTL_MAX, TTL_MIN,
};
