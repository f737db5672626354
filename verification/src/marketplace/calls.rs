//! Sequences of calls of the contract.

use vstd::prelude::*;

use crate::address::Address;
use crate::marketplace::model::LedgerView;
use crate::marketplace::types::EscrowError;

verus! {

/// One call of the contract with its arguments, or the passing of time between
/// two calls.
pub enum Call {
    Wait { timestamp: u64, sequence: u32 },
    Init { admin: Address },
    Deposit { order_id: u64, buyer: Address, farmer: Address, amount: i128, timeout_unix: u64 },
    Release { order_id: u64 },
    Refund { order_id: u64 },
    Snapshot { order_ids: Seq<u64> },
}

impl LedgerView {
    /// Whether the call completes, be it with an error. Those that do not are
    /// stopped by the host, and leave no trace on the ledger.
    pub open spec fn completes(self, call: Call) -> bool {
        match call {
            Call::Wait { timestamp, sequence } => {
                &&& self.timestamp <= timestamp
                &&& self.sequence <= sequence
            },
            Call::Deposit { order_id, buyer, farmer, timeout_unix, .. } => self.deposit_possible(
                order_id,
                buyer,
                farmer,
                timeout_unix,
            ),
            Call::Snapshot { order_ids } => self.admin is Some ==> {
                &&& self.last_snapshot() < u64::MAX
                &&& self.locked_fits(order_ids)
            },
            _ => true,
        }
    }

    /// The ledger after the call, and whether the call was refused.
    pub open spec fn outcome(self, call: Call) -> (LedgerView, Result<(), EscrowError>) {
        match call {
            Call::Wait { timestamp, sequence } => (
                LedgerView { timestamp, sequence, ..self },
                Ok(()),
            ),
            Call::Init { admin } => self.init(admin),
            Call::Deposit { order_id, buyer, farmer, amount, timeout_unix } => self.deposit(
                order_id,
                buyer,
                farmer,
                amount,
                timeout_unix,
            ),
            Call::Release { order_id } => self.release(order_id),
            Call::Refund { order_id } => self.refund(order_id),
            Call::Snapshot { order_ids } => (
                self.snapshot(order_ids).0,
                match self.snapshot(order_ids).1 {
                    Ok(_) => Ok(()),
                    Err(error) => Err(error),
                },
            ),
        }
    }

    /// The ledger after the call.
    pub open spec fn step(self, call: Call) -> LedgerView {
        self.outcome(call).0
    }

    /// The ledger after a sequence of calls.
    pub open spec fn run(self, calls: Seq<Call>) -> LedgerView
        decreases calls.len(),
    {
        if calls.len() == 0 {
            self
        } else {
            self.run(calls.drop_last()).step(calls.last())
        }
    }

    /// Whether each call of a sequence completes, on the ledger that those before
    /// it have left.
    pub open spec fn runs(self, calls: Seq<Call>) -> bool
        decreases calls.len(),
    {
        calls.len() == 0 || {
            &&& self.runs(calls.drop_last())
            &&& self.run(calls.drop_last()).completes(calls.last())
        }
    }
}

/// Whether the call is one to change the order.
pub open spec fn names_order(call: Call, order: u64) -> bool {
    match call {
        Call::Deposit { order_id, .. } => order_id == order,
        Call::Release { order_id } => order_id == order,
        Call::Refund { order_id } => order_id == order,
        _ => false,
    }
}

} // verus!
