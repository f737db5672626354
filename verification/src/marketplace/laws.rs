//! What holds of the contract as a whole.

use vstd::prelude::*;

use crate::address::Address;
use crate::marketplace::calls::{names_order, Call};
use crate::marketplace::events::Event;
use crate::marketplace::model::{self, LedgerView};
use crate::marketplace::types::{
    DataKey, Effect, EscrowError, EscrowRecord, MIN_TIMEOUT_SECS, TTL_MAX, TTL_MIN,
};
use crate::sums;

verus! {

/// A call that returns an error changes nothing and asks for nothing.
pub proof fn law_refusal_changes_nothing(ledger: LedgerView, call: Call)
    requires
        ledger.outcome(call).1 is Err,
    ensures
        ledger.step(call) == ledger,
{
}

/// A call that names an order leaves every other order as it was.
pub proof fn law_orders_independent(ledger: LedgerView, call: Call, order: u64)
    requires
        !names_order(call, order),
    ensures
        ledger.step(call).get_escrow(order) == ledger.get_escrow(order),
{
}

/// No call removes an order or changes its parties, its amount or its timeout,
/// and no call reopens an order that has been settled.
pub proof fn law_terms_kept(ledger: LedgerView, call: Call, order: u64)
    requires
        ledger.escrows.contains_key(order),
    ensures
        ledger.step(call).escrows.contains_key(order),
        ledger.step(call).escrows[order] == (EscrowRecord {
            released: ledger.step(call).escrows[order].released,
            ..ledger.escrows[order]
        }),
        ledger.escrows[order].released ==> ledger.step(call).escrows[order].released,
{
}

/// Whatever is called, and however often: an order keeps its terms, and one that
/// has been settled stays settled.
pub proof fn law_settled_for_good(ledger: LedgerView, calls: Seq<Call>, order: u64)
    requires
        ledger.escrows.contains_key(order),
    ensures
        ledger.run(calls).escrows.contains_key(order),
        ledger.run(calls).escrows[order] == (EscrowRecord {
            released: ledger.run(calls).escrows[order].released,
            ..ledger.escrows[order]
        }),
        ledger.escrows[order].released ==> ledger.run(calls).escrows[order].released,
    decreases calls.len(),
{
    if calls.len() > 0 {
        law_settled_for_good(ledger, calls.drop_last(), order);
        law_terms_kept(ledger.run(calls.drop_last()), calls.last(), order);
    }
}

/// An order is settled once: a release or a refund settles it, and both are
/// refused from then on.
pub proof fn law_settled_once(ledger: LedgerView, order: u64)
    ensures
        ledger.release(order).1 is Ok ==> ledger.release(order).0.escrows[order].released,
        ledger.refund(order).1 is Ok ==> ledger.refund(order).0.escrows[order].released,
        ledger.escrows.contains_key(order) && ledger.escrows[order].released ==> {
            &&& ledger.release(order).1 == Err::<(), _>(EscrowError::AlreadySettled)
            &&& ledger.refund(order).1 == Err::<(), _>(EscrowError::AlreadySettled)
        },
{
}

/// Whatever is called, on a contract that starts without orders: the buyer and
/// the farmer of every order are different.
pub proof fn law_parties_differ(ledger: LedgerView, calls: Seq<Call>, order: u64)
    requires
        ledger.escrows == Map::<u64, EscrowRecord>::empty(),
        ledger.run(calls).escrows.contains_key(order),
    ensures
        ledger.run(calls).escrows[order].buyer != ledger.run(calls).escrows[order].farmer,
    decreases calls.len(),
{
    if calls.len() > 0 {
        let before = ledger.run(calls.drop_last());
        if before.escrows.contains_key(order) {
            law_parties_differ(ledger, calls.drop_last(), order);
            law_terms_kept(before, calls.last(), order);
        }
    }
}

/// A deposit is safe from a refund for at least an hour, and can be refunded, as
/// long as it is not settled, from its timeout on.
pub proof fn law_hour_before_refund(
    ledger: LedgerView,
    order: u64,
    buyer: Address,
    farmer: Address,
    amount: i128,
    timeout_unix: u64,
    timestamp: u64,
    sequence: u32,
)
    requires
        ledger.timeout_acceptable(timeout_unix),
        ledger.deposit(order, buyer, farmer, amount, timeout_unix).1 is Ok,
    ensures
        ({
            let later = ledger.deposit(order, buyer, farmer, amount, timeout_unix).0.step(
                Call::Wait { timestamp, sequence },
            );
            &&& timestamp <= ledger.timestamp + MIN_TIMEOUT_SECS ==> later.refund(order).1 == Err::<
                (),
                _,
            >(EscrowError::NotTimedOut)
            &&& timestamp >= timeout_unix ==> later.refund(order).1 is Ok
        }),
{
}

/// What is deposited can be read back, unsettled.
pub proof fn law_deposit_then_get(
    ledger: LedgerView,
    order: u64,
    buyer: Address,
    farmer: Address,
    amount: i128,
    timeout_unix: u64,
)
    ensures
        ledger.deposit(order, buyer, farmer, amount, timeout_unix).1 is Ok <==> buyer != farmer
            && ledger.get_escrow(order) is Err,
        ledger.deposit(order, buyer, farmer, amount, timeout_unix).1 is Ok ==> ledger.deposit(
            order,
            buyer,
            farmer,
            amount,
            timeout_unix,
        ).0.get_escrow(order) == Ok::<_, EscrowError>(
            EscrowRecord { buyer, farmer, amount, timeout_unix, released: false },
        ),
{
}

/// The administrator is named once: no call replaces them, and a second attempt
/// is refused.
pub proof fn law_admin_fixed(ledger: LedgerView, call: Call, admin: Address)
    requires
        ledger.admin is Some,
    ensures
        ledger.step(call).admin == ledger.admin,
        ledger.init(admin).1 == Err::<(), _>(EscrowError::AlreadyInitialized),
{
}

/// Snapshots are numbered in sequence, from 1 on: each gets the number after that
/// of the latest, and becomes the latest. No other call uses up a number.
pub proof fn law_snapshots_numbered(ledger: LedgerView, order_ids: Seq<u64>, call: Call)
    requires
        ledger.last_snapshot() < u64::MAX,
    ensures
        ledger.snapshot(order_ids).1 matches Ok(snapshot_id) ==> {
            &&& snapshot_id == ledger.last_snapshot() + 1
            &&& ledger.snapshot(order_ids).0.last_snapshot() == snapshot_id
        },
        ledger.snapshot_seq is None ==> ledger.last_snapshot() == 0,
        !(call is Snapshot) ==> ledger.step(call).last_snapshot() == ledger.last_snapshot(),
{
}

/// A snapshot gives every address the sum of the amounts that the listed orders
/// lock of its funds: nothing for one that is the buyer of none of them.
pub proof fn law_snapshot_then_balance(ledger: LedgerView, order_ids: Seq<u64>, address: Address)
    requires
        ledger.admin is Some,
        ledger.completes(Call::Snapshot { order_ids }),
    ensures
        ({
            let (after, result) = ledger.snapshot(order_ids);
            &&& result matches Ok(snapshot_id)
            &&& after.balance_at(address, snapshot_id) matches Ok(balance)
            &&& balance == ledger.locked(order_ids, address.id)
        }),
{
    assert(order_ids.take(order_ids.len() as int) =~= order_ids);
    assert(i128::MIN <= ledger.locked(order_ids, address.id) <= i128::MAX);
    if !ledger.has_locked(order_ids, address.id) {
        model::lemma_nothing_locked(ledger, order_ids, address.id);
    }
}

/// An order counts in a snapshot for its buyer alone, and only until it is
/// settled.
pub proof fn law_settled_not_counted(ledger: LedgerView, order: u64, buyer_id: u64)
    ensures
        ledger.release(order).1 is Ok ==> ledger.release(order).0.locked_by(order, buyer_id) == 0,
        ledger.refund(order).1 is Ok ==> ledger.refund(order).0.locked_by(order, buyer_id) == 0,
        ledger.escrows[order].buyer.id != buyer_id ==> ledger.locked_by(order, buyer_id) == 0,
        !ledger.escrows.contains_key(order) ==> ledger.locked_by(order, buyer_id) == 0,
{
}

/// Where the list names no order twice, the locked amount of a buyer is the sum
/// over the set of orders in it, whatever their sequence.
pub proof fn law_locked_is_sum_over_set(ledger: LedgerView, order_ids: Seq<u64>, buyer_id: u64)
    requires
        order_ids.no_duplicates(),
    ensures
        ledger.locked(order_ids, buyer_id) == sums::sum_over(
            order_ids.to_set(),
            |order: u64| ledger.locked_by(order, buyer_id),
        ),
    decreases order_ids.len(),
{
    let weight = |order: u64| ledger.locked_by(order, buyer_id);
    if order_ids.len() == 0 {
        assert(order_ids.to_set() =~= Set::empty());
    } else {
        let shorter = order_ids.drop_last();
        let last = order_ids.last();
        law_locked_is_sum_over_set(ledger, shorter, buyer_id);
        assert(!shorter.contains(last));
        assert(order_ids.to_set() =~= shorter.to_set().insert(last)) by {
            assert forall|order: u64| order_ids.contains(order) implies shorter.contains(order)
                || order == last by {
                let i = choose|i: int| 0 <= i < order_ids.len() && order_ids[i] == order;
                if i < shorter.len() {
                    assert(shorter[i] == order);
                }
            }
            assert forall|order: u64| shorter.contains(order) implies order_ids.contains(
                order,
            ) by {
                let i = choose|i: int| 0 <= i < shorter.len() && shorter[i] == order;
                assert(order_ids[i] == order);
            }
            assert(order_ids[order_ids.len() - 1] == last);
        }
        vstd::seq_lib::seq_to_set_is_finite(shorter);
        sums::lemma_sum_insert(shorter.to_set(), weight, last);
    }
}

/// Whether the snapshots of the ledger have the numbers that were given out.
pub open spec fn snapshots_in_sequence(ledger: LedgerView) -> bool {
    forall|snapshot_id: u64| #[trigger]
        ledger.snapshots.contains_key(snapshot_id) ==> snapshot_id <= ledger.last_snapshot()
}

/// No call changes or removes a snapshot that has been taken: what `balance_at`
/// says of it stays.
pub proof fn law_snapshots_kept(ledger: LedgerView, calls: Seq<Call>, address: Address, snapshot_id: u64)
    requires
        snapshots_in_sequence(ledger),
        ledger.runs(calls),
    ensures
        snapshots_in_sequence(ledger.run(calls)),
        ledger.get_snapshot(snapshot_id) is Some ==> {
            &&& ledger.run(calls).get_snapshot(snapshot_id) == ledger.get_snapshot(snapshot_id)
            &&& ledger.run(calls).balance_at(address, snapshot_id) == ledger.balance_at(
                address,
                snapshot_id,
            )
        },
    decreases calls.len(),
{
    if calls.len() > 0 {
        law_snapshots_kept(ledger, calls.drop_last(), address, snapshot_id);
    }
}

/// The effects that a call adds.
pub open spec fn added(ledger: LedgerView, call: Call) -> Seq<Effect> {
    ledger.step(call).effects.skip(ledger.effects.len() as int)
}

/// The event that a call publishes, if it is not refused.
pub open spec fn event_of(ledger: LedgerView, call: Call) -> Option<Event> {
    match call {
        Call::Deposit { order_id, buyer, farmer, amount, .. } => Some(
            Event::Deposit { order_id, buyer, farmer, amount },
        ),
        Call::Release { order_id } => Some(
            Event::Release { order_id, amount: ledger.escrows[order_id].amount },
        ),
        Call::Refund { order_id } => Some(
            Event::Refund { order_id, amount: ledger.escrows[order_id].amount },
        ),
        Call::Snapshot { .. } => Some(
            Event::Snapshot { snapshot_id: (ledger.last_snapshot() + 1) as u64 },
        ),
        _ => None,
    }
}

/// Every deposit, release, refund and snapshot that is not refused publishes one
/// event, after everything else; no other call publishes any.
pub proof fn law_one_event(ledger: LedgerView, call: Call)
    ensures
        ledger.effects.is_prefix_of(ledger.step(call).effects),
        ledger.outcome(call).1 is Ok ==> match event_of(ledger, call) {
            Some(event) => {
                &&& added(ledger, call).len() > 0
                &&& added(ledger, call).last() == Effect::Publish(event)
                &&& forall|i: int|
                    0 <= i < added(ledger, call).len() - 1 ==> !((#[trigger] added(
                        ledger,
                        call,
                    )[i]) is Publish)
            },
            None => forall|i: int|
                0 <= i < added(ledger, call).len() ==> !((#[trigger] added(
                    ledger,
                    call,
                )[i]) is Publish),
        },
{
    assert(ledger.step(call).effects.take(ledger.effects.len() as int) =~= ledger.effects);
}

/// A deposit and a release ask for the authorisation of the buyer, and a snapshot
/// for that of the administrator, before anything else. A refund asks for no
/// authorisation.
pub proof fn law_authorised_first(ledger: LedgerView, call: Call)
    requires
        ledger.outcome(call).1 is Ok,
    ensures
        match call {
            Call::Deposit { buyer, .. } => added(ledger, call)[0] == Effect::RequireAuth(buyer),
            Call::Release { order_id } => added(ledger, call)[0] == Effect::RequireAuth(
                ledger.escrows[order_id].buyer,
            ),
            Call::Snapshot { .. } => added(ledger, call)[0] == Effect::RequireAuth(
                ledger.admin->0,
            ),
            Call::Refund { .. } => forall|i: int|
                0 <= i < added(ledger, call).len() ==> !((#[trigger] added(
                    ledger,
                    call,
                )[i]) is RequireAuth),
            _ => true,
        },
{
}

/// Whether the effect at a position, if it writes a persistent entry, is followed
/// by the extension of that entry's lifetime.
pub open spec fn extended_at(effects: Seq<Effect>, i: int) -> bool {
    effects[i] matches Effect::Put(key) ==> (key is Escrow || key is Snapshot) ==> {
        &&& i + 1 < effects.len()
        &&& effects[i + 1] == (Effect::ExtendTtl { key, threshold: TTL_MIN, extend_to: TTL_MAX })
    }
}

/// Every write of an order or a snapshot extends the lifetime of its entry, so
/// that no call leaves one to expire.
pub proof fn law_lifetimes_extended(ledger: LedgerView, call: Call, i: int)
    requires
        0 <= i < added(ledger, call).len(),
    ensures
        extended_at(added(ledger, call), i),
{
}

/// Every change of the ledger is listed among the effects, so that the host
/// writes it.
pub proof fn law_changes_announced(ledger: LedgerView, call: Call, number: u64)
    requires
        ledger.completes(call),
    ensures
        ledger.step(call).get_escrow(number) != ledger.get_escrow(number) ==> added(
            ledger,
            call,
        ).contains(Effect::Put(DataKey::Escrow(number))),
        ledger.step(call).get_snapshot(number) != ledger.get_snapshot(number) ==> added(
            ledger,
            call,
        ).contains(Effect::Put(DataKey::Snapshot(number))),
        ledger.step(call).admin != ledger.admin ==> added(ledger, call).contains(
            Effect::Put(DataKey::Admin),
        ),
        ledger.step(call).snapshot_seq != ledger.snapshot_seq ==> added(ledger, call).contains(
            Effect::Put(DataKey::SnapshotSeq),
        ),
{
    let effects = added(ledger, call);
    let n = effects.len() as int;
    if n > 0 {
        assert(forall|i: int|
            0 <= i < n ==> #[trigger] effects[i] == ledger.step(call).effects[ledger.effects.len()
                + i]);
        assert(call is Snapshot ==> effects[1] == Effect::Put(DataKey::SnapshotSeq));
        assert(call is Snapshot ==> effects[2] is Put);
        assert(call is Deposit ==> effects[1] is Put);
        assert(call is Release ==> effects[1] is Put);
        assert(call is Refund ==> effects[0] is Put);
        assert(call is Init ==> effects[0] is Put);
    }
}

} // verus!
