//! What each operation is for, in terms of what goes in and what comes out: when
//! it is accepted, what it asks for, and what it leaves on the ledger.

use vstd::prelude::*;

use crate::address::Address;
use crate::host;
use crate::marketplace::contract::Ledger;
use crate::marketplace::events::{Event, EventData, Topic, TopicView};
use crate::marketplace::model::{self, LedgerView};
use crate::marketplace::snapshot::{self, SnapshotView};
use crate::marketplace::types::{DataKey, Effect, EscrowError, EscrowRecord};

verus! {

/// What the host is asked for when a persistent entry is written.
pub open spec fn written(key: DataKey) -> Seq<Effect> {
    seq![
        Effect::Put(key),
        Effect::ExtendTtl { key, threshold: 100_000, extend_to: 200_000 },
    ]
}

/// The contract works on the ledger value as it stands.
pub proof fn law_ledger_as_it_stands(ledger: Ledger, number: u64)
    ensures
        ledger@.timestamp == ledger.timestamp,
        ledger@.sequence == ledger.sequence,
        ledger@.admin == ledger.admin,
        ledger@.snapshot_seq == ledger.snapshot_seq,
        ledger@.escrows == ledger.escrows@,
        ledger@.effects == ledger.effects@,
        ledger@.snapshots.contains_key(number) <==> ledger.snapshots@.contains_key(number),
        ledger.snapshots@.contains_key(number) ==> ledger@.snapshots[number]
            == ledger.snapshots@[number]@,
{
}

/// Every event is published under the symbol of the contract and that of the
/// action, and under the number of the order where it is about one. A deposit
/// tells the parties and the amount, a settlement the amount, and a snapshot its
/// number.
pub proof fn law_event_contents(
    order_id: u64,
    buyer: Address,
    farmer: Address,
    amount: i128,
    snapshot_id: u64,
)
    ensures
        ({
            let deposit = Event::Deposit { order_id, buyer, farmer, amount };
            let release = Event::Release { order_id, amount };
            let refund = Event::Refund { order_id, amount };
            let taken = Event::Snapshot { snapshot_id };
            let escrow = TopicView::Symbol("escrow"@);
            let id = TopicView::Id(order_id);
            &&& deposit.spec_topics() == seq![escrow, TopicView::Symbol("deposit"@), id]
            &&& release.spec_topics() == seq![escrow, TopicView::Symbol("release"@), id]
            &&& refund.spec_topics() == seq![escrow, TopicView::Symbol("refund"@), id]
            &&& taken.spec_topics() == seq![escrow, TopicView::Symbol("snapshot"@)]
            &&& deposit.spec_data() == EventData::Deposit(buyer, farmer, amount)
            &&& release.spec_data() == EventData::Amount(amount)
            &&& refund.spec_data() == EventData::Amount(amount)
            &&& taken.spec_data() == EventData::SnapshotId(snapshot_id)
        }),
{
}

/// A topic is read as it stands.
pub proof fn law_topic_as_it_stands(symbol: &'static str, id: u64)
    ensures
        Topic::Symbol(symbol)@ == TopicView::Symbol(symbol@),
        Topic::Id(id)@ == TopicView::Id(id),
{
}

/// The first to be named becomes the administrator; any later attempt is refused
/// and leaves everything as it was.
pub proof fn law_init_names_the_first(ledger: LedgerView, admin: Address)
    ensures
        ledger.admin is None ==> ledger.init(admin) == (
            (LedgerView {
                admin: Some(admin),
                effects: ledger.effects + seq![Effect::Put(DataKey::Admin)],
                ..ledger
            }),
            Ok::<(), EscrowError>(()),
        ),
        ledger.admin is Some ==> ledger.init(admin) == (
            ledger,
            Err::<(), _>(EscrowError::AlreadyInitialized),
        ),
{
}

/// Reading an order gives its record, whatever its state and whatever the time,
/// and is refused where there is none.
pub proof fn law_get_reads_the_record(ledger: LedgerView, order: u64)
    ensures
        ledger.escrows.contains_key(order) ==> ledger.get_escrow(order) == Ok::<_, EscrowError>(
            ledger.escrows[order],
        ),
        !ledger.escrows.contains_key(order) ==> ledger.get_escrow(order) == Err::<
            EscrowRecord,
            _,
        >(EscrowError::NotFound),
{
}

/// A deposit comes to a result exactly if the parties are the same, the order
/// exists, or the timeout lies more than an hour after the present.
pub proof fn law_deposit_possible(
    ledger: LedgerView,
    order: u64,
    buyer: Address,
    farmer: Address,
    timeout_unix: u64,
)
    ensures
        ledger.deposit_possible(order, buyer, farmer, timeout_unix) <==> buyer == farmer
            || ledger.escrows.contains_key(order) || timeout_unix > ledger.timestamp + 3_600,
        ledger.timeout_acceptable(timeout_unix) <==> timeout_unix > ledger.timestamp + 3_600,
{
}

/// A deposit between different parties is accepted exactly if the order is new.
/// That the parties are the same is named first. A refused deposit leaves
/// everything as it was.
pub proof fn law_deposit_accepted(
    ledger: LedgerView,
    order: u64,
    buyer: Address,
    farmer: Address,
    amount: i128,
    timeout_unix: u64,
)
    ensures
        ({
            let (after, result) = ledger.deposit(order, buyer, farmer, amount, timeout_unix);
            let exists_order = ledger.escrows.contains_key(order);
            &&& result is Ok <==> buyer != farmer && !exists_order
            &&& result == Err::<(), _>(EscrowError::InvalidParties) <==> buyer == farmer
            &&& result == Err::<(), _>(EscrowError::AlreadyExists) <==> buyer != farmer
                && exists_order
            &&& result is Err ==> after == ledger
        }),
{
}

/// After an accepted deposit the record of the order holds the arguments as they
/// were given, and is not settled. The buyer has been asked to authorise it, the
/// record is written and the deposit announced, and everything else is as it was.
pub proof fn law_deposit_stores_the_arguments(
    ledger: LedgerView,
    order: u64,
    buyer: Address,
    farmer: Address,
    amount: i128,
    timeout_unix: u64,
)
    requires
        ledger.deposit(order, buyer, farmer, amount, timeout_unix).1 is Ok,
    ensures
        ({
            let after = ledger.deposit(order, buyer, farmer, amount, timeout_unix).0;
            &&& after.escrows.dom() == ledger.escrows.dom().insert(order)
            &&& after.escrows.remove(order) == ledger.escrows.remove(order)
            &&& after.escrows[order].buyer == buyer
            &&& after.escrows[order].farmer == farmer
            &&& after.escrows[order].amount == amount
            &&& after.escrows[order].timeout_unix == timeout_unix
            &&& !after.escrows[order].released
            &&& after.effects == ledger.effects + seq![Effect::RequireAuth(buyer)] + written(
                DataKey::Escrow(order),
            ) + seq![Effect::Publish(Event::Deposit { order_id: order, buyer, farmer, amount })]
            &&& after == (LedgerView { escrows: after.escrows, effects: after.effects, ..ledger })
        }),
{
}

/// From an accepted deposit on, a refund is refused before the timeout that was
/// given and accepted from it on, and the buyer can release the order at any
/// time.
pub proof fn law_deposit_sets_the_time_of_refund(
    ledger: LedgerView,
    order: u64,
    buyer: Address,
    farmer: Address,
    amount: i128,
    timeout_unix: u64,
    timestamp: u64,
)
    requires
        ledger.deposit(order, buyer, farmer, amount, timeout_unix).1 is Ok,
    ensures
        ({
            let after = ledger.deposit(order, buyer, farmer, amount, timeout_unix).0;
            let later = LedgerView { timestamp, ..after };
            &&& timestamp < timeout_unix ==> later.refund(order).1 == Err::<(), _>(
                EscrowError::NotTimedOut,
            )
            &&& timestamp >= timeout_unix ==> later.refund(order).1 is Ok
            &&& later.release(order).1 is Ok
        }),
{
}

/// A release is accepted exactly if the order exists and is not settled, at any
/// time. A refused release leaves everything as it was.
pub proof fn law_release_accepted(ledger: LedgerView, order: u64)
    ensures
        ({
            let (after, result) = ledger.release(order);
            let exists_order = ledger.escrows.contains_key(order);
            let settled = ledger.escrows[order].released;
            &&& result is Ok <==> exists_order && !settled
            &&& result == Err::<(), _>(EscrowError::NotFound) <==> !exists_order
            &&& result == Err::<(), _>(EscrowError::AlreadySettled) <==> exists_order && settled
            &&& result is Err ==> after == ledger
        }),
{
}

/// An accepted release settles the order. The buyer has been asked to authorise
/// it, the record is written, the release of the order's amount announced, and
/// everything else is as it was.
pub proof fn law_release_settles(ledger: LedgerView, order: u64)
    requires
        ledger.release(order).1 is Ok,
    ensures
        ({
            let record = ledger.escrows[order];
            ledger.release(order).0 == (LedgerView {
                escrows: ledger.escrows.insert(order, EscrowRecord { released: true, ..record }),
                effects: ledger.effects + seq![Effect::RequireAuth(record.buyer)] + written(
                    DataKey::Escrow(order),
                ) + seq![
                    Effect::Publish(Event::Release { order_id: order, amount: record.amount }),
                ],
                ..ledger
            })
        }),
{
}

/// A refund is accepted exactly if the order exists, is not settled and its
/// timeout is reached. Each refusal names the first of these that fails, and
/// leaves everything as it was.
pub proof fn law_refund_accepted(ledger: LedgerView, order: u64)
    ensures
        ({
            let (after, result) = ledger.refund(order);
            let record = ledger.escrows[order];
            let exists_order = ledger.escrows.contains_key(order);
            &&& result is Ok <==> exists_order && !record.released && record.timeout_unix
                <= ledger.timestamp
            &&& result == Err::<(), _>(EscrowError::NotFound) <==> !exists_order
            &&& result == Err::<(), _>(EscrowError::AlreadySettled) <==> exists_order
                && record.released
            &&& result == Err::<(), _>(EscrowError::NotTimedOut) <==> exists_order
                && !record.released && ledger.timestamp < record.timeout_unix
            &&& result is Err ==> after == ledger
        }),
{
}

/// An accepted refund settles the order. Nobody is asked to authorise it; the
/// record is written, the refund of the order's amount announced, and everything
/// else is as it was.
pub proof fn law_refund_settles(ledger: LedgerView, order: u64)
    requires
        ledger.refund(order).1 is Ok,
    ensures
        ({
            let record = ledger.escrows[order];
            ledger.refund(order).0 == (LedgerView {
                escrows: ledger.escrows.insert(order, EscrowRecord { released: true, ..record }),
                effects: ledger.effects + written(DataKey::Escrow(order)) + seq![
                    Effect::Publish(Event::Refund { order_id: order, amount: record.amount }),
                ],
                ..ledger
            })
        }),
{
}

/// The order numbers of a vector are its items, in their sequence, where every
/// item is one.
pub proof fn law_ids_are_the_items(order_ids: soroban_sdk::Vec<u64>, i: int)
    ensures
        ({
            let slots = host::order_id_slots(order_ids);
            &&& model::ids_of(slots).len() == slots.len()
            &&& 0 <= i < slots.len() && slots[i] is Some ==> slots[i] == Some(
                model::ids_of(slots)[i],
            )
            &&& model::all_ids(slots) <==> forall|j: int|
                0 <= j < slots.len() ==> (#[trigger] slots[j]) is Some
        }),
{
}

/// An empty list locks nothing. One more order in the list adds exactly its
/// amount to what is locked of its buyer's funds, if it exists and has not been
/// settled, at any time, and nothing to that of anyone else.
pub proof fn law_each_order_adds_its_amount(
    ledger: LedgerView,
    order_ids: Seq<u64>,
    order: u64,
    buyer_id: u64,
)
    ensures
        ledger.locked(Seq::empty(), buyer_id) == 0,
        ledger.locked(order_ids.push(order), buyer_id) == ledger.locked(order_ids, buyer_id) + (
        if ledger.escrows.contains_key(order) && !ledger.escrows[order].released
            && ledger.escrows[order].buyer.id == buyer_id {
            ledger.escrows[order].amount as int
        } else {
            0
        }),
{
    assert(order_ids.push(order).drop_last() =~= order_ids);
}

/// What a list of orders locks depends on the records of the orders alone: not
/// on the time, the ledger's number, or anything that has happened before.
pub proof fn law_locked_by_the_records_alone(
    ledger: LedgerView,
    other: LedgerView,
    order_ids: Seq<u64>,
    buyer_id: u64,
)
    requires
        ledger.escrows == other.escrows,
    ensures
        ledger.locked(order_ids, buyer_id) == other.locked(order_ids, buyer_id),
        ledger.locked_balances(order_ids) == other.locked_balances(order_ids),
        ledger.locked_fits(order_ids) == other.locked_fits(order_ids),
{
    assert forall|ids: Seq<u64>, id: u64| #[trigger]
        ledger.locked(ids, id) == other.locked(ids, id) by {
        lemma_locked_same(ledger, other, ids, id);
    }
    assert forall|n: int, id: u64|
        ledger.locked(#[trigger] order_ids.take(n), id) == #[trigger] other.locked(
            order_ids.take(n),
            id,
        ) by {
        lemma_locked_same(ledger, other, order_ids.take(n), id);
    }
    assert forall|id: u64|
        ledger.has_locked(order_ids, id) == #[trigger] other.has_locked(order_ids, id) by {
        assert forall|i: int| 0 <= i < order_ids.len() implies #[trigger] ledger.locks(
            order_ids[i],
            id,
        ) == other.locks(order_ids[i], id) by {}
        if ledger.has_locked(order_ids, id) {
            let i = choose|i: int|
                0 <= i < order_ids.len() && #[trigger] ledger.locks(order_ids[i], id);
            assert(other.locks(order_ids[i], id));
        }
        if other.has_locked(order_ids, id) {
            let i = choose|i: int|
                0 <= i < order_ids.len() && #[trigger] other.locks(order_ids[i], id);
            assert(ledger.locks(order_ids[i], id));
        }
    }
    assert(ledger.locked_balances(order_ids) =~= other.locked_balances(order_ids));
}

proof fn lemma_locked_same(
    ledger: LedgerView,
    other: LedgerView,
    order_ids: Seq<u64>,
    buyer_id: u64,
)
    requires
        ledger.escrows == other.escrows,
    ensures
        ledger.locked(order_ids, buyer_id) == other.locked(order_ids, buyer_id),
    decreases order_ids.len(),
{
    if order_ids.len() > 0 {
        lemma_locked_same(ledger, other, order_ids.drop_last(), buyer_id);
    }
}

/// The gathered balances list exactly the buyers of the unsettled orders in the
/// list, each with what those orders lock of their funds.
pub proof fn law_balances_of_the_buyers(ledger: LedgerView, order_ids: Seq<u64>, buyer_id: u64)
    requires
        ledger.locked_fits(order_ids),
    ensures
        ({
            let balances = ledger.locked_balances(order_ids);
            &&& balances.contains_key(buyer_id) <==> exists|i: int|
                0 <= i < order_ids.len() && ledger.escrows.contains_key(#[trigger] order_ids[i])
                    && !ledger.escrows[order_ids[i]].released
                    && ledger.escrows[order_ids[i]].buyer.id == buyer_id
            &&& balances.contains_key(buyer_id) ==> balances[buyer_id] == ledger.locked(
                order_ids,
                buyer_id,
            )
        }),
{
    assert(order_ids.take(order_ids.len() as int) =~= order_ids);
    assert(i128::MIN <= ledger.locked(order_ids, buyer_id) <= i128::MAX);
    if ledger.has_locked(order_ids, buyer_id) {
        let i = choose|i: int|
            0 <= i < order_ids.len() && #[trigger] ledger.locks(order_ids[i], buyer_id);
        assert(ledger.escrows.contains_key(order_ids[i]));
    }
    if exists|i: int|
        0 <= i < order_ids.len() && ledger.escrows.contains_key(#[trigger] order_ids[i])
            && !ledger.escrows[order_ids[i]].released
            && ledger.escrows[order_ids[i]].buyer.id == buyer_id {
        let i = choose|i: int|
            0 <= i < order_ids.len() && ledger.escrows.contains_key(#[trigger] order_ids[i])
                && !ledger.escrows[order_ids[i]].released
                && ledger.escrows[order_ids[i]].buyer.id == buyer_id;
        assert(ledger.locks(order_ids[i], buyer_id));
    }
}

/// The orders of a list can be added up exactly if all but the last can, and no
/// balance is out of the range of an `i128` with the last. An empty list always
/// can.
pub proof fn law_when_balances_fit(ledger: LedgerView, order_ids: Seq<u64>, order: u64)
    ensures
        ledger.locked_fits(Seq::empty()),
        ledger.locked_fits(order_ids.push(order)) <==> ledger.locked_fits(order_ids) && forall|
            buyer_id: u64,
        |
            i128::MIN <= #[trigger] ledger.locked(order_ids.push(order), buyer_id) <= i128::MAX,
{
    let longer = order_ids.push(order);
    let empty = Seq::<u64>::empty();
    assert forall|n: int, buyer_id: u64| 0 <= n <= empty.len() implies i128::MIN
        <= #[trigger] ledger.locked(empty.take(n), buyer_id) <= i128::MAX by {
        assert(empty.take(n).len() == 0);
    }
    assert(longer.take(longer.len() as int) =~= longer);
    assert(longer.take(order_ids.len() as int) =~= order_ids);
    if ledger.locked_fits(longer) {
        assert forall|n: int, buyer_id: u64| 0 <= n <= order_ids.len() implies i128::MIN
            <= #[trigger] ledger.locked(order_ids.take(n), buyer_id) <= i128::MAX by {
            assert(longer.take(n) =~= order_ids.take(n));
            assert(i128::MIN <= ledger.locked(longer.take(n), buyer_id) <= i128::MAX);
        }
        assert forall|buyer_id: u64| i128::MIN <= #[trigger] ledger.locked(longer, buyer_id)
            <= i128::MAX by {
            assert(i128::MIN <= ledger.locked(longer.take(longer.len() as int), buyer_id)
                <= i128::MAX);
        }
    }
    if ledger.locked_fits(order_ids) && forall|buyer_id: u64|
        i128::MIN <= #[trigger] ledger.locked(longer, buyer_id) <= i128::MAX {
        model::lemma_locked_fits_next(ledger, longer, order_ids.len() as int);
    }
}

/// A snapshot comes to a result exactly if there is no administrator, which is an
/// error, or the vector holds order numbers, a number is left for the snapshot,
/// and the balances can be added up.
pub proof fn law_snapshot_possible(ledger: LedgerView, slots: Seq<Option<u64>>)
    ensures
        ledger.snapshot_possible(slots) <==> ledger.admin is None || {
            &&& forall|i: int| 0 <= i < slots.len() ==> (#[trigger] slots[i]) is Some
            &&& ledger.snapshot_seq != Some(u64::MAX)
            &&& ledger.locked_fits(model::ids_of(slots))
        },
{
}

/// A snapshot is refused exactly if there is no administrator, and then leaves
/// everything as it was.
pub proof fn law_snapshot_accepted(ledger: LedgerView, order_ids: Seq<u64>)
    ensures
        ledger.snapshot(order_ids).1 is Ok <==> ledger.admin is Some,
        ledger.admin is None ==> ledger.snapshot(order_ids) == (
            ledger,
            Err::<u64, _>(EscrowError::Unauthorized),
        ),
{
}

/// A snapshot gets the number after the latest, 1 if it is the first, and that
/// number is the latest from then on. It is kept with the ledger's number and
/// the balances; the administrator has been asked to authorise it, and it is
/// written and announced. Everything else is as it was, the orders among it.
pub proof fn law_snapshot_recorded(ledger: LedgerView, order_ids: Seq<u64>, snapshot_id: u64)
    requires
        ledger.admin is Some,
        match ledger.snapshot_seq {
            Some(latest) => snapshot_id == latest + 1,
            None => snapshot_id == 1,
        },
    ensures
        ledger.snapshot(order_ids) == (
            (LedgerView {
                snapshot_seq: Some(snapshot_id),
                snapshots: ledger.snapshots.insert(
                    snapshot_id,
                    SnapshotView {
                        ledger_sequence: ledger.sequence,
                        balances: ledger.locked_balances(order_ids),
                    },
                ),
                effects: ledger.effects + seq![
                    Effect::RequireAuth(ledger.admin->0),
                    Effect::Put(DataKey::SnapshotSeq),
                ] + written(DataKey::Snapshot(snapshot_id)) + seq![
                    Effect::Publish(Event::Snapshot { snapshot_id }),
                ],
                ..ledger
            }),
            Ok::<_, EscrowError>(snapshot_id),
        ),
{
}

/// Reading a balance gives what the snapshot lists for the address, 0 where it
/// lists nothing, and is refused where there is no such snapshot.
pub proof fn law_balance_at_reads_the_snapshot(
    ledger: LedgerView,
    address: Address,
    snapshot_id: u64,
)
    ensures
        ({
            let balances = ledger.snapshots[snapshot_id].balances;
            let result = ledger.balance_at(address, snapshot_id);
            &&& !ledger.snapshots.contains_key(snapshot_id) ==> result == Err::<i128, _>(
                EscrowError::SnapshotNotFound,
            )
            &&& ledger.snapshots.contains_key(snapshot_id) ==> {
                &&& balances.contains_key(address.id) ==> result == Ok::<_, EscrowError>(
                    balances[address.id],
                )
                &&& !balances.contains_key(address.id) ==> result == Ok::<_, EscrowError>(0i128)
            }
        }),
{
}

/// The balance of an address that a snapshot of the listed orders gives.
pub open spec fn balance_by_snapshot(
    ledger: LedgerView,
    order_ids: Seq<u64>,
    address: Address,
) -> Result<i128, EscrowError> {
    let (after, result) = ledger.snapshot(order_ids);
    after.balance_at(address, result->Ok_0)
}

/// How two snapshots relate. One of no orders gives everybody 0. One of a list
/// with one more order gives the buyer of that order exactly its amount more, if
/// the order exists and has not been settled, and everybody else the same, at
/// any time.
pub proof fn law_snapshot_counts_each_order(
    ledger: LedgerView,
    order_ids: Seq<u64>,
    order: u64,
    address: Address,
)
    requires
        ledger.admin is Some,
        ledger.snapshot_seq != Some(u64::MAX),
        ledger.locked_fits(order_ids.push(order)),
    ensures
        balance_by_snapshot(ledger, Seq::empty(), address) == Ok::<_, EscrowError>(0i128),
        balance_by_snapshot(ledger, order_ids, address) is Ok,
        balance_by_snapshot(ledger, order_ids.push(order), address) is Ok,
        balance_by_snapshot(ledger, order_ids.push(order), address)->Ok_0 == balance_by_snapshot(
            ledger,
            order_ids,
            address,
        )->Ok_0 + (if ledger.escrows.contains_key(order) && !ledger.escrows[order].released
            && ledger.escrows[order].buyer == address {
            ledger.escrows[order].amount as int
        } else {
            0
        }),
{
    law_when_balances_fit(ledger, order_ids, order);
    law_each_order_adds_its_amount(ledger, order_ids, order, address.id);
    lemma_balance_is_locked(ledger, Seq::empty(), address);
    lemma_balance_is_locked(ledger, order_ids, address);
    lemma_balance_is_locked(ledger, order_ids.push(order), address);
}

proof fn lemma_balance_is_locked(ledger: LedgerView, order_ids: Seq<u64>, address: Address)
    requires
        ledger.admin is Some,
        ledger.locked_fits(order_ids),
    ensures
        balance_by_snapshot(ledger, order_ids, address) is Ok,
        balance_by_snapshot(ledger, order_ids, address)->Ok_0 == ledger.locked(
            order_ids,
            address.id,
        ),
{
    assert(order_ids.take(order_ids.len() as int) =~= order_ids);
    assert(i128::MIN <= ledger.locked(order_ids, address.id) <= i128::MAX);
    if !ledger.has_locked(order_ids, address.id) {
        model::lemma_nothing_locked(ledger, order_ids, address.id);
    }
}

/// A snapshot of the same orders gives the same balances at any time.
pub proof fn law_snapshot_at_any_time(
    ledger: LedgerView,
    order_ids: Seq<u64>,
    address: Address,
    timestamp: u64,
)
    requires
        ledger.admin is Some,
        ledger.snapshot_seq != Some(u64::MAX),
        ledger.locked_fits(order_ids),
    ensures
        balance_by_snapshot(LedgerView { timestamp, ..ledger }, order_ids, address)
            == balance_by_snapshot(ledger, order_ids, address),
{
    let later = LedgerView { timestamp, ..ledger };
    law_locked_by_the_records_alone(ledger, later, order_ids, address.id);
    lemma_balance_is_locked(ledger, order_ids, address);
    lemma_balance_is_locked(later, order_ids, address);
}

/// A list of addresses and amounts gives each address the amount that stands last
/// beside it, and lists no other address.
pub proof fn law_listed_amounts(entries: Seq<(Address, i128)>, id: u64, i: int)
    ensures
        snapshot::listed_balances(entries).contains_key(id) <==> exists|j: int|
            0 <= j < entries.len() && (#[trigger] entries[j]).0.id == id,
        (0 <= i < entries.len() && entries[i].0.id == id && forall|j: int|
            i < j < entries.len() ==> (#[trigger] entries[j]).0.id != id)
            ==> snapshot::listed_balances(entries)[id] == entries[i].1,
    decreases entries.len(),
{
    if entries.len() > 0 {
        let shorter = entries.drop_last();
        let last = entries.len() - 1;
        law_listed_amounts(shorter, id, i);
        assert(forall|j: int| 0 <= j < shorter.len() ==> #[trigger] shorter[j] == entries[j]);
        assert(entries[last] == entries.last());
        if exists|j: int| 0 <= j < shorter.len() && (#[trigger] shorter[j]).0.id == id {
            let j = choose|j: int| 0 <= j < shorter.len() && (#[trigger] shorter[j]).0.id == id;
            assert(entries[j].0.id == id);
        }
        if exists|j: int| 0 <= j < entries.len() && (#[trigger] entries[j]).0.id == id {
            let j = choose|j: int| 0 <= j < entries.len() && (#[trigger] entries[j]).0.id == id;
            if j < last {
                assert(shorter[j].0.id == id);
            }
        }
    }
}

} // verus!
