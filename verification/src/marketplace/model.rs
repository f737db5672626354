//! What each call of the contract does, on a mathematical ledger.

use vstd::prelude::*;

use crate::address::Address;
use crate::marketplace::events::Event;
use crate::marketplace::snapshot::SnapshotView;
use crate::marketplace::types::{
    DataKey, Effect, EscrowError, EscrowRecord, MIN_TIMEOUT_SECS, TTL_MAX, TTL_MIN,
};

verus! {

/// What the contract sees of the ledger, and the effects that it has asked for.
#[verifier::ext_equal]
pub struct LedgerView {
    pub timestamp: u64,
    pub sequence: u32,
    pub admin: Option<Address>,
    pub snapshot_seq: Option<u64>,
    pub escrows: Map<u64, EscrowRecord>,
    pub snapshots: Map<u64, SnapshotView>,
    pub effects: Seq<Effect>,
}

/// The order numbers of a vector whose items are all of that type.
pub open spec fn ids_of(slots: Seq<Option<u64>>) -> Seq<u64> {
    slots.map_values(|slot: Option<u64>| slot->0)
}

/// Whether every item of a vector is an order number.
pub open spec fn all_ids(slots: Seq<Option<u64>>) -> bool {
    forall|i: int| 0 <= i < slots.len() ==> (#[trigger] slots[i]) is Some
}

impl LedgerView {
    /// The ledger with one more effect.
    pub open spec fn emit(self, effect: Effect) -> LedgerView {
        LedgerView { effects: self.effects.push(effect), ..self }
    }

    /// The ledger after the lifetime of an entry has been extended.
    pub open spec fn extend_ttl(self, key: DataKey) -> LedgerView {
        self.emit(Effect::ExtendTtl { key, threshold: TTL_MIN, extend_to: TTL_MAX })
    }

    /// The ledger with a record written and its lifetime extended.
    pub open spec fn put_escrow(self, order_id: u64, record: EscrowRecord) -> LedgerView {
        LedgerView { escrows: self.escrows.insert(order_id, record), ..self }.emit(
            Effect::Put(DataKey::Escrow(order_id)),
        ).extend_ttl(DataKey::Escrow(order_id))
    }

    /// The ledger with a snapshot written and its lifetime extended.
    pub open spec fn put_snapshot(self, snapshot_id: u64, snapshot: SnapshotView) -> LedgerView {
        LedgerView { snapshots: self.snapshots.insert(snapshot_id, snapshot), ..self }.emit(
            Effect::Put(DataKey::Snapshot(snapshot_id)),
        ).extend_ttl(DataKey::Snapshot(snapshot_id))
    }

    /// Names the administrator, unless there is one.
    pub open spec fn init(self, admin: Address) -> (LedgerView, Result<(), EscrowError>) {
        if self.admin is Some {
            (self, Err(EscrowError::AlreadyInitialized))
        } else {
            (
                LedgerView { admin: Some(admin), ..self }.emit(Effect::Put(DataKey::Admin)),
                Ok(()),
            )
        }
    }

    /// Why the order cannot be opened between these parties.
    pub open spec fn deposit_error(self, order_id: u64, buyer: Address, farmer: Address) -> Option<
        EscrowError,
    > {
        if buyer == farmer {
            Some(EscrowError::InvalidParties)
        } else if self.escrows.contains_key(order_id) {
            Some(EscrowError::AlreadyExists)
        } else {
            None
        }
    }

    /// Whether a timeout lies far enough in the future.
    pub open spec fn timeout_acceptable(self, timeout_unix: u64) -> bool {
        timeout_unix > self.timestamp + MIN_TIMEOUT_SECS
    }

    /// Whether a deposit comes to a result: it is refused for its parties or its
    /// number, or its timeout is acceptable.
    pub open spec fn deposit_possible(
        self,
        order_id: u64,
        buyer: Address,
        farmer: Address,
        timeout_unix: u64,
    ) -> bool {
        ||| self.deposit_error(order_id, buyer, farmer) is Some
        ||| self.timeout_acceptable(timeout_unix)
    }

    /// Opens the record of an order, in the name of its buyer.
    pub open spec fn deposit(
        self,
        order_id: u64,
        buyer: Address,
        farmer: Address,
        amount: i128,
        timeout_unix: u64,
    ) -> (LedgerView, Result<(), EscrowError>) {
        match self.deposit_error(order_id, buyer, farmer) {
            Some(error) => (self, Err(error)),
            None => (
                self.emit(Effect::RequireAuth(buyer)).put_escrow(
                    order_id,
                    EscrowRecord { buyer, farmer, amount, timeout_unix, released: false },
                ).emit(Effect::Publish(Event::Deposit { order_id, buyer, farmer, amount })),
                Ok(()),
            ),
        }
    }

    /// The ledger with the record of an order marked as settled.
    pub open spec fn settle(self, order_id: u64) -> LedgerView {
        self.put_escrow(order_id, EscrowRecord { released: true, ..self.escrows[order_id] })
    }

    /// Why the order cannot be settled, whatever the time.
    pub open spec fn settle_error(self, order_id: u64) -> Option<EscrowError> {
        if !self.escrows.contains_key(order_id) {
            Some(EscrowError::NotFound)
        } else if self.escrows[order_id].released {
            Some(EscrowError::AlreadySettled)
        } else {
            None
        }
    }

    /// Settles an order in favour of the farmer, in the name of the buyer.
    pub open spec fn release(self, order_id: u64) -> (LedgerView, Result<(), EscrowError>) {
        let record = self.escrows[order_id];
        match self.settle_error(order_id) {
            Some(error) => (self, Err(error)),
            None => (
                self.emit(Effect::RequireAuth(record.buyer)).settle(order_id).emit(
                    Effect::Publish(Event::Release { order_id, amount: record.amount }),
                ),
                Ok(()),
            ),
        }
    }

    /// Why the order cannot be refunded now.
    pub open spec fn refund_error(self, order_id: u64) -> Option<EscrowError> {
        if self.settle_error(order_id) is Some {
            self.settle_error(order_id)
        } else if self.timestamp < self.escrows[order_id].timeout_unix {
            Some(EscrowError::NotTimedOut)
        } else {
            None
        }
    }

    /// Settles an order in favour of the buyer, once its timeout is reached. No
    /// authorisation is asked for.
    pub open spec fn refund(self, order_id: u64) -> (LedgerView, Result<(), EscrowError>) {
        let record = self.escrows[order_id];
        match self.refund_error(order_id) {
            Some(error) => (self, Err(error)),
            None => (
                self.settle(order_id).emit(
                    Effect::Publish(Event::Refund { order_id, amount: record.amount }),
                ),
                Ok(()),
            ),
        }
    }

    /// The record of an order.
    pub open spec fn get_escrow(self, order_id: u64) -> Result<EscrowRecord, EscrowError> {
        if self.escrows.contains_key(order_id) {
            Ok(self.escrows[order_id])
        } else {
            Err(EscrowError::NotFound)
        }
    }

    /// Whether the order locks funds of the buyer with the given number.
    pub open spec fn locks(self, order_id: u64, buyer_id: u64) -> bool {
        &&& self.escrows.contains_key(order_id)
        &&& !self.escrows[order_id].released
        &&& self.escrows[order_id].buyer.id == buyer_id
    }

    /// The amount that the order locks of a buyer's funds.
    pub open spec fn locked_by(self, order_id: u64, buyer_id: u64) -> int {
        if self.locks(order_id, buyer_id) {
            self.escrows[order_id].amount as int
        } else {
            0
        }
    }

    /// The amount that the listed orders lock of a buyer's funds.
    pub open spec fn locked(self, order_ids: Seq<u64>, buyer_id: u64) -> int
        decreases order_ids.len(),
    {
        if order_ids.len() == 0 {
            0
        } else {
            self.locked(order_ids.drop_last(), buyer_id) + self.locked_by(
                order_ids.last(),
                buyer_id,
            )
        }
    }

    /// Whether one of the listed orders locks funds of a buyer.
    pub open spec fn has_locked(self, order_ids: Seq<u64>, buyer_id: u64) -> bool {
        exists|i: int| 0 <= i < order_ids.len() && #[trigger] self.locks(order_ids[i], buyer_id)
    }

    /// The balances that the listed orders lock, by the number of the buyer.
    pub open spec fn locked_balances(self, order_ids: Seq<u64>) -> Map<u64, i128> {
        Map::new(
            |buyer_id: u64| self.has_locked(order_ids, buyer_id),
            |buyer_id: u64| self.locked(order_ids, buyer_id) as i128,
        )
    }

    /// Whether no balance leaves the range of an `i128` while the listed orders
    /// are added up.
    pub open spec fn locked_fits(self, order_ids: Seq<u64>) -> bool {
        forall|n: int, buyer_id: u64|
            0 <= n <= order_ids.len() ==> i128::MIN <= #[trigger] self.locked(
                order_ids.take(n),
                buyer_id,
            ) <= i128::MAX
    }

    /// The number of the latest snapshot, or 0 before the first.
    pub open spec fn last_snapshot(self) -> u64 {
        match self.snapshot_seq {
            Some(snapshot_id) => snapshot_id,
            None => 0,
        }
    }

    /// Whether a snapshot of the orders in a vector can be taken: there is no
    /// administrator, which is an error, or the vector holds order numbers, there
    /// is a number left for the snapshot, and the balances can be added up.
    pub open spec fn snapshot_possible(self, slots: Seq<Option<u64>>) -> bool {
        self.admin is Some ==> {
            &&& all_ids(slots)
            &&& self.last_snapshot() < u64::MAX
            &&& self.locked_fits(ids_of(slots))
        }
    }

    /// Records the balances that the listed orders lock, under the next number.
    pub open spec fn snapshot(self, order_ids: Seq<u64>) -> (LedgerView, Result<
        u64,
        EscrowError,
    >) {
        let snapshot_id = (self.last_snapshot() + 1) as u64;
        match self.admin {
            None => (self, Err(EscrowError::Unauthorized)),
            Some(admin) => (
                LedgerView {
                    snapshot_seq: Some(snapshot_id),
                    ..self.emit(Effect::RequireAuth(admin))
                }.emit(Effect::Put(DataKey::SnapshotSeq)).put_snapshot(
                    snapshot_id,
                    SnapshotView {
                        ledger_sequence: self.sequence,
                        balances: self.locked_balances(order_ids),
                    },
                ).emit(Effect::Publish(Event::Snapshot { snapshot_id })),
                Ok(snapshot_id),
            ),
        }
    }

    /// The snapshot of a number.
    pub open spec fn get_snapshot(self, snapshot_id: u64) -> Option<SnapshotView> {
        if self.snapshots.contains_key(snapshot_id) {
            Some(self.snapshots[snapshot_id])
        } else {
            None
        }
    }

    /// The balance of an address in a snapshot.
    pub open spec fn balance_at(self, address: Address, snapshot_id: u64) -> Result<
        i128,
        EscrowError,
    > {
        match self.get_snapshot(snapshot_id) {
            Some(snapshot) => Ok(snapshot.balance_of(address)),
            None => Err(EscrowError::SnapshotNotFound),
        }
    }
}

/// What one more order adds to the locked amount of a buyer.
pub proof fn lemma_locked_next(ledger: LedgerView, order_ids: Seq<u64>, n: int, buyer_id: u64)
    requires
        0 <= n < order_ids.len(),
    ensures
        ledger.locked(order_ids.take(n + 1), buyer_id) == ledger.locked(
            order_ids.take(n),
            buyer_id,
        ) + ledger.locked_by(order_ids[n], buyer_id),
        ledger.has_locked(order_ids.take(n + 1), buyer_id) == (ledger.has_locked(
            order_ids.take(n),
            buyer_id,
        ) || ledger.locks(order_ids[n], buyer_id)),
{
    let longer = order_ids.take(n + 1);
    let shorter = order_ids.take(n);
    assert(longer.drop_last() =~= shorter);
    assert(forall|i: int| 0 <= i < n ==> #[trigger] longer[i] == shorter[i]);
    if ledger.has_locked(shorter, buyer_id) {
        let i = choose|i: int|
            0 <= i < shorter.len() && #[trigger] ledger.locks(shorter[i], buyer_id);
        assert(ledger.locks(longer[i], buyer_id));
    }
    if ledger.locks(order_ids[n], buyer_id) {
        assert(ledger.locks(longer[n], buyer_id));
    }
}

/// A buyer of none of the listed orders has nothing locked by them.
pub proof fn lemma_nothing_locked(ledger: LedgerView, order_ids: Seq<u64>, buyer_id: u64)
    requires
        !ledger.has_locked(order_ids, buyer_id),
    ensures
        ledger.locked(order_ids, buyer_id) == 0,
    decreases order_ids.len(),
{
    if order_ids.len() > 0 {
        let shorter = order_ids.drop_last();
        assert forall|i: int| 0 <= i < shorter.len() implies !(#[trigger] ledger.locks(
            shorter[i],
            buyer_id,
        )) by {
            assert(!ledger.locks(order_ids[i], buyer_id));
        }
        lemma_nothing_locked(ledger, shorter, buyer_id);
        assert(!ledger.locks(order_ids[order_ids.len() - 1], buyer_id));
    }
}

/// The balances stay in range up to the next order if they do so before it, and
/// with it.
pub proof fn lemma_locked_fits_next(ledger: LedgerView, order_ids: Seq<u64>, n: int)
    requires
        0 <= n < order_ids.len(),
        ledger.locked_fits(order_ids.take(n)),
        forall|buyer_id: u64|
            i128::MIN <= #[trigger] ledger.locked(order_ids.take(n + 1), buyer_id) <= i128::MAX,
    ensures
        ledger.locked_fits(order_ids.take(n + 1)),
{
    let longer = order_ids.take(n + 1);
    assert forall|m: int, buyer_id: u64| 0 <= m <= longer.len() implies i128::MIN
        <= #[trigger] ledger.locked(longer.take(m), buyer_id) <= i128::MAX by {
        if m <= n {
            assert(longer.take(m) =~= order_ids.take(n).take(m));
        } else {
            assert(longer.take(m) =~= longer);
        }
    }
}

} // verus!
