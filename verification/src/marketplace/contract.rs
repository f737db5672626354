use std::collections::BTreeMap;

use vstd::prelude::*;

use crate::address::Address;
use crate::host;
use crate::marketplace::events::Event;
use crate::marketplace::model::{self, LedgerView};
use crate::marketplace::snapshot::SnapshotRecord;
use crate::marketplace::types::{
    DataKey, Effect, EscrowError, EscrowRecord, MIN_TIMEOUT_SECS, TTL_MAX, TTL_MIN,
};

verus! {

/// What the contract reads of the ledger during a call, and what it asks of the
/// host in return.
///
/// `escrows` and `snapshots` hold the entries that the call names, as storage has
/// them. A call changes them the way storage is to be changed, and lists the
/// changes among `effects`.
pub struct Ledger {
    pub timestamp: u64,
    pub sequence: u32,
    pub admin: Option<Address>,
    pub snapshot_seq: Option<u64>,
    pub escrows: BTreeMap<u64, EscrowRecord>,
    pub snapshots: BTreeMap<u64, SnapshotRecord>,
    pub effects: Vec<Effect>,
}

impl View for Ledger {
    type V = LedgerView;

    open spec fn view(&self) -> LedgerView {
        LedgerView {
            timestamp: self.timestamp,
            sequence: self.sequence,
            admin: self.admin,
            snapshot_seq: self.snapshot_seq,
            escrows: self.escrows@,
            snapshots: self.snapshots@.map_values(|record: SnapshotRecord| record@),
            effects: self.effects@,
        }
    }
}

impl Ledger {
    /// A ledger without entries, at a given time and sequence number.
    pub fn new(timestamp: u64, sequence: u32) -> (ledger: Ledger)
        ensures
            ledger@ == (LedgerView {
                timestamp,
                sequence,
                admin: None,
                snapshot_seq: None,
                escrows: Map::empty(),
                snapshots: Map::empty(),
                effects: Seq::empty(),
            }),
    {
        let ledger = Ledger {
            timestamp,
            sequence,
            admin: None,
            snapshot_seq: None,
            escrows: BTreeMap::new(),
            snapshots: BTreeMap::new(),
            effects: Vec::new(),
        };
        assert(ledger@.snapshots =~= Map::empty());
        ledger
    }

    /// The number of the latest snapshot, or 0 before the first.
    fn last_snapshot(&self) -> (snapshot_id: u64)
        ensures
            snapshot_id == self@.last_snapshot(),
    {
        match self.snapshot_seq {
            Some(snapshot_id) => snapshot_id,
            None => 0,
        }
    }

    /// Adds an effect.
    fn emit(&mut self, effect: Effect)
        ensures
            final(self)@ == old(self)@.emit(effect),
            final(self).snapshots == old(self).snapshots,
    {
        self.effects.push(effect);
    }

    /// Extends the lifetime of an entry.
    fn extend_ttl(&mut self, key: DataKey)
        ensures
            final(self)@ == old(self)@.extend_ttl(key),
    {
        self.emit(Effect::ExtendTtl { key, threshold: TTL_MIN, extend_to: TTL_MAX });
    }

    /// Writes a record and extends its lifetime.
    fn put_escrow(&mut self, order_id: u64, record: EscrowRecord)
        ensures
            final(self)@ == old(self)@.put_escrow(order_id, record),
    {
        self.escrows.insert(order_id, record);
        self.emit(Effect::Put(DataKey::Escrow(order_id)));
        self.extend_ttl(DataKey::Escrow(order_id));
    }

    /// Writes a snapshot and extends its lifetime.
    fn put_snapshot(&mut self, snapshot_id: u64, record: SnapshotRecord)
        ensures
            final(self)@ == old(self)@.put_snapshot(snapshot_id, record@),
    {
        self.snapshots.insert(snapshot_id, record);
        assert(self@.snapshots =~= old(self)@.snapshots.insert(snapshot_id, record@));
        self.emit(Effect::Put(DataKey::Snapshot(snapshot_id)));
        self.extend_ttl(DataKey::Snapshot(snapshot_id));
    }
}

/// The contract.
pub struct EscrowContract;

impl EscrowContract {
    /// Names the administrator, once, before the first snapshot.
    pub fn init(ledger: &mut Ledger, admin: Address) -> (result: Result<(), EscrowError>)
        ensures
            (final(ledger)@, result) == old(ledger)@.init(admin),
    {
        if ledger.admin.is_some() {
            return Err(EscrowError::AlreadyInitialized);
        }
        ledger.admin = Some(admin);
        ledger.emit(Effect::Put(DataKey::Admin));
        Ok(())
    }

    /// Whether a timeout lies more than an hour after the ledger's time.
    pub fn timeout_acceptable(ledger: &Ledger, timeout_unix: u64) -> (acceptable: bool)
        ensures
            acceptable == ledger@.timeout_acceptable(timeout_unix),
    {
        timeout_unix > ledger.timestamp.saturating_add(MIN_TIMEOUT_SECS)
    }

    /// Whether a deposit comes to a result: it is refused for its parties or its
    /// number, or its timeout is acceptable.
    pub fn deposit_possible(
        ledger: &Ledger,
        order_id: u64,
        buyer: Address,
        farmer: Address,
        timeout_unix: u64,
    ) -> (possible: bool)
        ensures
            possible == ledger@.deposit_possible(order_id, buyer, farmer, timeout_unix),
    {
        buyer == farmer || ledger.escrows.contains_key(&order_id) || Self::timeout_acceptable(
            ledger,
            timeout_unix,
        )
    }

    /// Locks `amount` in escrow for `order_id`. A timeout that is not acceptable
    /// is allowed only where the deposit is refused for another reason.
    pub fn deposit(
        ledger: &mut Ledger,
        order_id: u64,
        buyer: Address,
        farmer: Address,
        amount: i128,
        timeout_unix: u64,
    ) -> (result: Result<(), EscrowError>)
        requires
            old(ledger)@.deposit_possible(order_id, buyer, farmer, timeout_unix),
        ensures
            (final(ledger)@, result) == old(ledger)@.deposit(
                order_id,
                buyer,
                farmer,
                amount,
                timeout_unix,
            ),
    {
        if buyer == farmer {
            return Err(EscrowError::InvalidParties);
        }
        if ledger.escrows.contains_key(&order_id) {
            return Err(EscrowError::AlreadyExists);
        }
        ledger.emit(Effect::RequireAuth(buyer));
        let record = EscrowRecord { buyer, farmer, amount, timeout_unix, released: false };
        ledger.put_escrow(order_id, record);
        ledger.emit(Effect::Publish(Event::Deposit { order_id, buyer, farmer, amount }));
        Ok(())
    }

    /// Releases escrowed funds to the farmer. Only the buyer may do this.
    pub fn release(ledger: &mut Ledger, order_id: u64) -> (result: Result<(), EscrowError>)
        ensures
            (final(ledger)@, result) == old(ledger)@.release(order_id),
    {
        let mut record = match ledger.escrows.get(&order_id) {
            Some(record) => *record,
            None => return Err(EscrowError::NotFound),
        };
        if record.released {
            return Err(EscrowError::AlreadySettled);
        }
        ledger.emit(Effect::RequireAuth(record.buyer));
        let amount: i128 = record.amount;
        record.released = true;
        ledger.put_escrow(order_id, record);
        ledger.emit(Effect::Publish(Event::Release { order_id, amount }));
        Ok(())
    }

    /// Returns escrowed funds to the buyer once the timeout is reached. Anyone
    /// may do this.
    pub fn refund(ledger: &mut Ledger, order_id: u64) -> (result: Result<(), EscrowError>)
        ensures
            (final(ledger)@, result) == old(ledger)@.refund(order_id),
    {
        let mut record = match ledger.escrows.get(&order_id) {
            Some(record) => *record,
            None => return Err(EscrowError::NotFound),
        };
        if record.released {
            return Err(EscrowError::AlreadySettled);
        }
        if ledger.timestamp < record.timeout_unix {
            return Err(EscrowError::NotTimedOut);
        }
        let amount: i128 = record.amount;
        record.released = true;
        ledger.put_escrow(order_id, record);
        ledger.emit(Effect::Publish(Event::Refund { order_id, amount }));
        Ok(())
    }

    /// The record of an order.
    pub fn get_escrow(ledger: &Ledger, order_id: u64) -> (result: Result<
        EscrowRecord,
        EscrowError,
    >)
        ensures
            result == ledger@.get_escrow(order_id),
    {
        match ledger.escrows.get(&order_id) {
            Some(record) => Ok(*record),
            None => Err(EscrowError::NotFound),
        }
    }

    /// The balances that the listed orders lock. `None` where the vector holds
    /// something else than order numbers, or a balance overflows on the way.
    pub fn locked_balances(
        env: &soroban_sdk::Env,
        ledger: &Ledger,
        order_ids: &soroban_sdk::Vec<u64>,
    ) -> (balances: Option<soroban_sdk::Map<u64, i128>>)
        ensures
            balances is Some == {
                &&& model::all_ids(host::order_id_slots(*order_ids))
                &&& ledger@.locked_fits(model::ids_of(host::order_id_slots(*order_ids)))
            },
            balances matches Some(balances) ==> {
                &&& host::balances_typed(balances)
                &&& host::balance_entries(balances) == ledger@.locked_balances(
                    model::ids_of(host::order_id_slots(*order_ids)),
                )
            },
    {
        let ghost slots = host::order_id_slots(*order_ids);
        let ghost ids = model::ids_of(slots);
        let mut balances = host::balances_new(env);
        let mut position: u32 = 0;
        assert(host::balance_entries(balances) =~= ledger@.locked_balances(ids.take(0)));
        loop
            invariant
                slots == host::order_id_slots(*order_ids),
                ids == model::ids_of(slots),
                position <= slots.len(),
                model::all_ids(slots.take(position as int)),
                ledger@.locked_fits(ids.take(position as int)),
                host::balances_typed(balances),
                host::balance_entries(balances) == ledger@.locked_balances(
                    ids.take(position as int),
                ),
                host::balance_entries(balances).dom().finite(),
                host::balance_entries(balances).len() <= position,
            decreases slots.len() - position,
        {
            let order_id: u64 = match host::order_id_at(order_ids, position) {
                Ok(Some(order_id)) => order_id,
                Ok(None) => {
                    assert(slots.take(position as int) =~= slots);
                    assert(ids.take(position as int) =~= ids);
                    return Some(balances);
                },
                Err(_) => {
                    return None;
                },
            };
            let ghost before = ids.take(position as int);
            let ghost after = ids.take(position + 1);
            assert(ids[position as int] == order_id);
            assert(before.take(position as int) =~= before);
            assert forall|buyer_id: u64|
                #![trigger ledger@.locked(after, buyer_id)]
                #![trigger ledger@.has_locked(after, buyer_id)]
                {
                    &&& ledger@.locked(after, buyer_id) == ledger@.locked(before, buyer_id)
                        + ledger@.locked_by(order_id, buyer_id)
                    &&& ledger@.has_locked(after, buyer_id) == (ledger@.has_locked(before, buyer_id)
                        || ledger@.locks(order_id, buyer_id))
                    &&& !ledger@.has_locked(before, buyer_id) ==> ledger@.locked(before, buyer_id)
                        == 0
                    &&& i128::MIN <= ledger@.locked(before, buyer_id) <= i128::MAX
                } by {
                model::lemma_locked_next(ledger@, ids, position as int, buyer_id);
                if !ledger@.has_locked(before, buyer_id) {
                    model::lemma_nothing_locked(ledger@, before, buyer_id);
                }
                assert(ledger@.locked(before.take(position as int), buyer_id) == ledger@.locked(
                    before,
                    buyer_id,
                ));
            }
            if let Some(record) = ledger.escrows.get(&order_id) {
                if !record.released {
                    let prev: i128 = match host::balance_get(&balances, record.buyer.id) {
                        Some(prev) => prev,
                        None => 0,
                    };
                    match prev.checked_add(record.amount) {
                        Some(sum) => {
                            host::balance_set(&mut balances, record.buyer.id, sum);
                        },
                        None => {
                            assert(!(i128::MIN <= ledger@.locked(after, record.buyer.id)
                                <= i128::MAX));
                            return None;
                        },
                    }
                }
            }
            proof {
                model::lemma_locked_fits_next(ledger@, ids, position as int);
                assert(host::balance_entries(balances) =~= ledger@.locked_balances(after));
            }
            position = position + 1;
        }
    }

    /// Records, under the next snapshot number, what the listed orders lock of
    /// each buyer's funds. Only the administrator may do this. Returns the number
    /// of the snapshot.
    pub fn snapshot(
        env: &soroban_sdk::Env,
        ledger: &mut Ledger,
        order_ids: &soroban_sdk::Vec<u64>,
    ) -> (result: Result<u64, EscrowError>)
        requires
            old(ledger)@.snapshot_possible(host::order_id_slots(*order_ids)),
        ensures
            (final(ledger)@, result) == old(ledger)@.snapshot(
                model::ids_of(host::order_id_slots(*order_ids)),
            ),
    {
        let admin = match ledger.admin {
            Some(admin) => admin,
            None => return Err(EscrowError::Unauthorized),
        };
        let balances = Self::locked_balances(env, ledger, order_ids).unwrap();
        ledger.emit(Effect::RequireAuth(admin));
        let snapshot_id: u64 = ledger.last_snapshot() + 1;
        ledger.snapshot_seq = Some(snapshot_id);
        ledger.emit(Effect::Put(DataKey::SnapshotSeq));
        let record = SnapshotRecord::new(ledger.sequence, balances);
        ledger.put_snapshot(snapshot_id, record);
        ledger.emit(Effect::Publish(Event::Snapshot { snapshot_id }));
        Ok(snapshot_id)
    }

    /// Takes a snapshot where that is possible. `None`, with the ledger
    /// unchanged, where it is not: the vector holds something else than order
    /// numbers, the numbers for snapshots are used up, or a balance overflows.
    pub fn snapshot_checked(
        env: &soroban_sdk::Env,
        ledger: &mut Ledger,
        order_ids: &soroban_sdk::Vec<u64>,
    ) -> (result: Option<Result<u64, EscrowError>>)
        ensures
            result is Some == old(ledger)@.snapshot_possible(host::order_id_slots(*order_ids)),
            match result {
                Some(result) => (final(ledger)@, result) == old(ledger)@.snapshot(
                    model::ids_of(host::order_id_slots(*order_ids)),
                ),
                None => final(ledger)@ == old(ledger)@,
            },
    {
        if ledger.admin.is_some() {
            if ledger.last_snapshot() == u64::MAX {
                return None;
            }
            if Self::locked_balances(env, ledger, order_ids).is_none() {
                return None;
            }
        }
        Some(Self::snapshot(env, ledger, order_ids))
    }

    /// The locked balance of `addr` in a snapshot: 0 where it had none.
    pub fn balance_at(ledger: &Ledger, addr: Address, snapshot_id: u64) -> (result: Result<
        i128,
        EscrowError,
    >)
        ensures
            result == ledger@.balance_at(addr, snapshot_id),
    {
        match ledger.snapshots.get(&snapshot_id) {
            Some(record) => Ok(record.balance_of(addr)),
            None => Err(EscrowError::SnapshotNotFound),
        }
    }
}

} // verus!
