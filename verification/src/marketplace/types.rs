use vstd::prelude::*;

use crate::address::Address;
use crate::marketplace::events::Event;

verus! {

/// The lifetime, in ledgers, below which a persistent entry is extended
/// (about 57 days at 5 s per ledger).
pub const TTL_MIN: u32 = 100_000;

/// The lifetime, in ledgers, to which a persistent entry is extended
/// (about 115 days at 5 s per ledger).
pub const TTL_MAX: u32 = 200_000;

/// How far beyond the present a timeout has to lie at the deposit: one hour.
pub const MIN_TIMEOUT_SECS: u64 = 3_600;

/// Why a call is refused.
#[derive(Clone, Copy, Debug, PartialEq, Eq, PartialOrd, Ord, Structural)]
pub enum EscrowError {
    /// An escrow record already exists for this order.
    AlreadyExists,
    /// There is no escrow record for this order.
    NotFound,
    /// The caller is not authorised to perform this action.
    Unauthorized,
    /// The escrow has not yet timed out.
    NotTimedOut,
    /// The escrow has already been settled, by a release or a refund.
    AlreadySettled,
    /// The buyer and the farmer must be different.
    InvalidParties,
    /// The contract has already been initialised.
    AlreadyInitialized,
    /// There is no snapshot of this number.
    SnapshotNotFound,
}

/// The entries that the contract keeps on the ledger.
#[derive(Clone, Copy, Debug, PartialEq, Eq, Structural)]
pub enum DataKey {
    /// The record of an order, in persistent storage.
    Escrow(u64),
    /// The administrator, in the contract's instance storage.
    Admin,
    /// A snapshot, in persistent storage.
    Snapshot(u64),
    /// The number of the latest snapshot, in the contract's instance storage.
    SnapshotSeq,
}

/// The record of an order. `released` says that it has been settled.
#[derive(Clone, Copy, Debug, PartialEq, Eq, Structural)]
pub struct EscrowRecord {
    pub buyer: Address,
    pub farmer: Address,
    pub amount: i128,
    pub timeout_unix: u64,
    pub released: bool,
}

/// What the host does for the contract, in the order of the calls.
#[derive(Clone, Copy, Debug, PartialEq, Eq, Structural)]
pub enum Effect {
    /// Fail the call unless this address has authorised it.
    RequireAuth(Address),
    /// Write the entry to storage as the ledger value holds it.
    Put(DataKey),
    /// Extend the lifetime of a persistent entry to `extend_to` ledgers, where
    /// fewer than `threshold` are left.
    ExtendTtl { key: DataKey, threshold: u32, extend_to: u32 },
    /// Publish an event.
    Publish(Event),
}

impl EscrowError {
    /// The number by which callers of the contract know the error.
    pub open spec fn spec_code(self) -> u32 {
        match self {
            EscrowError::AlreadyExists => 1,
            EscrowError::NotFound => 2,
            EscrowError::Unauthorized => 3,
            EscrowError::NotTimedOut => 4,
            EscrowError::AlreadySettled => 5,
            EscrowError::InvalidParties => 6,
            EscrowError::AlreadyInitialized => 7,
            EscrowError::SnapshotNotFound => 8,
        }
    }

    /// The number by which callers of the contract know the error.
    pub fn code(self) -> (code: u32)
        ensures
            code == self.spec_code(),
    {
        match self {
            EscrowError::AlreadyExists => 1,
            EscrowError::NotFound => 2,
            EscrowError::Unauthorized => 3,
            EscrowError::NotTimedOut => 4,
            EscrowError::AlreadySettled => 5,
            EscrowError::InvalidParties => 6,
            EscrowError::AlreadyInitialized => 7,
            EscrowError::SnapshotNotFound => 8,
        }
    }
}

} // verus!
