//! Sequences of calls of the contract.

use vstd::prelude::*;

use crate::address::Address;
use crate::escrow::model::LedgerView;
use crate::escrow::types::{BatchEntry, EscrowError};

verus! {

/// One call of the contract with its arguments, or the passing of time between
/// two calls.
pub enum Call {
    Wait { timestamp: u64 },
    Init { platform: Address },
    SetAdmin { admin: Address },
    Deposit { entry: BatchEntry },
    BatchDeposit { entries: Seq<BatchEntry> },
    Release { order_id: u64, platform_fee_bps: u32 },
    Refund { order_id: u64 },
    Dispute { order_id: u64, caller: Address },
    ResolveDispute { order_id: u64, release_to_farmer: bool },
}

impl LedgerView {
    /// Whether the call completes, be it with an error. Those that do not are
    /// stopped by the host, and leave no trace on the ledger.
    pub open spec fn completes(self, call: Call) -> bool {
        match call {
            Call::Wait { timestamp } => self.timestamp <= timestamp,
            Call::SetAdmin { .. } => self.admin is None,
            Call::Release { order_id, platform_fee_bps } => self.release_fits(
                order_id,
                platform_fee_bps,
            ),
            Call::ResolveDispute { order_id, .. } => self.resolvable(order_id),
            _ => true,
        }
    }

    /// The ledger after the call, and the call's result.
    pub open spec fn outcome(self, call: Call) -> (LedgerView, Result<(), EscrowError>) {
        match call {
            Call::Wait { timestamp } => (LedgerView { timestamp, ..self }, Ok(())),
            Call::Init { platform } => (self.init(platform), Ok(())),
            Call::SetAdmin { admin } => (self.set_admin(admin), Ok(())),
            Call::Deposit { entry } => self.deposit(entry),
            Call::BatchDeposit { entries } => self.batch_deposit(entries),
            Call::Release { order_id, platform_fee_bps } => self.release(
                order_id,
                platform_fee_bps,
            ),
            Call::Refund { order_id } => self.refund(order_id),
            Call::Dispute { order_id, caller } => self.dispute(order_id, caller),
            Call::ResolveDispute { order_id, release_to_farmer } => (
                self.resolve_dispute(order_id, release_to_farmer),
                Ok(()),
            ),
        }
    }

    /// The ledger after the call.
    pub open spec fn step(self, call: Call) -> LedgerView {
        self.outcome(call).0
    }

    /// The ledger after a sequence of calls.
    pub open spec fn run(self, calls: Seq<Call>) -> LedgerView
        decreases calls.len(),
    {
        if calls.len() == 0 {
            self
        } else {
            self.run(calls.drop_last()).step(calls.last())
        }
    }

    /// Whether each call of a sequence completes, on the ledger that those before
    /// it have left.
    pub open spec fn runs(self, calls: Seq<Call>) -> bool
        decreases calls.len(),
    {
        calls.len() == 0 || {
            &&& self.runs(calls.drop_last())
            &&& self.run(calls.drop_last()).completes(calls.last())
        }
    }
}

/// Whether an entry of the batch names the order.
pub open spec fn lists_order(entries: Seq<BatchEntry>, order: u64) -> bool {
    exists|i: int| 0 <= i < entries.len() && (#[trigger] entries[i]).0 == order
}

/// Whether the call names the order.
pub open spec fn names_order(call: Call, order: u64) -> bool {
    match call {
        Call::Deposit { entry } => entry.0 == order,
        Call::BatchDeposit { entries } => lists_order(entries, order),
        Call::Release { order_id, .. } => order_id == order,
        Call::Refund { order_id } => order_id == order,
        Call::Dispute { order_id, .. } => order_id == order,
        Call::ResolveDispute { order_id, .. } => order_id == order,
        _ => false,
    }
}

} // verus!
