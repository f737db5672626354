//! The escrow contracts of a farmers' marketplace.
//!
//! A buyer locks funds for an order, the farmer is paid when the buyer releases
//! them, and the buyer gets them back once a timeout has passed. Two contracts
//! share that idea:
//!
//! - [`marketplace`] keeps a record of each order, publishes an event for every
//!   change and takes snapshots of the locked balances for governance voting;
//! - [`escrow`] moves tokens, deducts a platform fee, and knows disputes and
//!   deposits in batches.
//!
//! Neither talks to a ledger. Each works on a `Ledger` value, which holds what
//! the contract reads of the ledger, and appends to it, in order, the effects
//! that the host has to carry out: authorisations, transfers, writes, extended
//! lifetimes and events.

pub mod address;
pub mod escrow;
pub mod host;
pub mod marketplace;
pub mod sums;
