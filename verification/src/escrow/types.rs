use vstd::prelude::*;

use crate::address::Address;

verus! {

/// The lifetime, in ledgers, below which a persistent entry is extended
/// (about 57 days at 5 s per ledger).
pub const TTL_MIN: u32 = 100_000;

/// The lifetime, in ledgers, to which a persistent entry is extended
/// (about 115 days at 5 s per ledger).
pub const TTL_MAX: u32 = 200_000;

/// The largest platform fee, in basis points: a tenth of the amount.
pub const MAX_FEE_BPS: u32 = 1000;

/// The number of basis points in the whole amount.
pub const BPS_SCALE: i128 = 10_000;

/// Why a call is refused.
#[derive(Clone, Copy, Debug, PartialEq, Eq, PartialOrd, Ord, Structural)]
pub enum EscrowError {
    NotFound,
    AlreadySettled,
    InDispute,
    Unauthorized,
    InvalidAmount,
    AlreadyExists,
    TimeoutNotReached,
}

/// Where an escrow stands between its deposit and its settlement.
#[derive(Clone, Copy, Debug, PartialEq, Eq, Structural)]
pub enum EscrowStatus {
    Active,
    Released,
    Refunded,
    Disputed,
}

/// The entries that the contract keeps on the ledger.
#[derive(Clone, Copy, Debug, PartialEq, Eq, Structural)]
pub enum DataKey {
    /// One escrow, in persistent storage with a lifetime of its own.
    Escrow(u64),
    /// The administrator, in the contract's instance storage.
    Admin,
    /// The recipient of platform fees, in the contract's instance storage.
    Platform,
}

/// A full escrow record. `token` is the token in which it was paid.
#[derive(Clone, Copy, Debug, PartialEq, Eq, Structural)]
pub struct Escrow {
    pub buyer: Address,
    pub farmer: Address,
    pub token: Address,
    pub amount: i128,
    pub timeout_unix: u64,
    pub status: EscrowStatus,
}

/// One deposit of a batch:
/// `(order_id, buyer, farmer, token, amount, timeout_unix)`.
pub type BatchEntry = (u64, Address, Address, Address, i128, u64);

/// What the host does for the contract, in the order of the calls.
#[derive(Clone, Copy, Debug, PartialEq, Eq, Structural)]
pub enum Effect {
    /// Fail the call unless this address has authorised it.
    RequireAuth(Address),
    /// Move an amount of a token.
    Transfer { token: Address, from: Address, to: Address, amount: i128 },
    /// Write the entry to storage as the ledger value holds it.
    Put(DataKey),
    /// Extend the lifetime of a persistent entry to `extend_to` ledgers, where
    /// fewer than `threshold` are left.
    ExtendTtl { key: DataKey, threshold: u32, extend_to: u32 },
}

impl EscrowError {
    /// The number by which callers of the contract know the error.
    pub open spec fn spec_code(self) -> u32 {
        match self {
            EscrowError::NotFound => 1,
            EscrowError::AlreadySettled => 2,
            EscrowError::InDispute => 3,
            EscrowError::Unauthorized => 4,
            EscrowError::InvalidAmount => 5,
            EscrowError::AlreadyExists => 6,
            EscrowError::TimeoutNotReached => 7,
        }
    }

    /// The number by which callers of the contract know the error.
    pub fn code(self) -> (code: u32)
        ensures
            code == self.spec_code(),
    {
        match self {
            EscrowError::NotFound => 1,
            EscrowError::AlreadySettled => 2,
            EscrowError::InDispute => 3,
            EscrowError::Unauthorized => 4,
            EscrowError::InvalidAmount => 5,
            EscrowError::AlreadyExists => 6,
            EscrowError::TimeoutNotReached => 7,
        }
    }
}

impl EscrowStatus {
    /// Whether the funds have left the escrow for good.
    pub open spec fn settled(self) -> bool {
        self is Released || self is Refunded
    }
}

} // verus!
