//! What holds of the contract as a whole.

use vstd::prelude::*;

use crate::address::Address;
use crate::escrow::calls::{lists_order, names_order, Call};
use crate::escrow::model::{self, LedgerView};
use crate::escrow::types::{
    BatchEntry, DataKey, Effect, Escrow, EscrowError, EscrowStatus, MAX_FEE_BPS, TTL_MAX, TTL_MIN,
};

verus! {

/// The platform's fee is never negative and never more than a tenth of the
/// amount, so that what is left for the farmer is never negative either. A fee
/// of no basis points is nothing.
pub proof fn law_fee_within_amount(amount: int, platform_fee_bps: u32)
    requires
        amount >= 0,
        platform_fee_bps <= MAX_FEE_BPS,
    ensures
        0 <= model::fee_of(amount, platform_fee_bps as int) <= amount / 10,
        amount - model::fee_of(amount, platform_fee_bps as int) >= 0,
        model::fee_of(amount, 0) == 0,
{
    let bps = platform_fee_bps as int;
    let product = amount * bps;
    assert(0 <= product <= amount * 1000) by (nonlinear_arith)
        requires
            0 <= amount,
            0 <= bps <= 1000,
            product == amount * bps,
    ;
}

/// An amount of which the largest fee can be computed can be released at any fee
/// that is allowed: one of up to a thousandth of the range of an `i128`.
pub proof fn law_moderate_amounts_fit(amount: int, platform_fee_bps: u32)
    requires
        i128::MIN <= amount * MAX_FEE_BPS <= i128::MAX,
        platform_fee_bps <= MAX_FEE_BPS,
    ensures
        model::fee_fits(amount, platform_fee_bps as int),
{
    let bps = platform_fee_bps as int;
    let product = amount * bps;
    assert(amount >= 0 ==> 0 <= product <= amount * 1000) by (nonlinear_arith)
        requires
            0 <= bps <= 1000,
            product == amount * bps,
    ;
    assert(amount < 0 ==> amount * 1000 <= product <= 0) by (nonlinear_arith)
        requires
            0 <= bps <= 1000,
            product == amount * bps,
    ;
}

/// Opening the entries of a batch keeps every order that they do not name, and
/// everything else but the effects.
proof fn lemma_open_all_keeps(ledger: LedgerView, entries: Seq<BatchEntry>, order: u64)
    ensures
        ({
            let after = ledger.open_all(entries);
            &&& after.timestamp == ledger.timestamp
            &&& after.contract == ledger.contract
            &&& after.admin == ledger.admin
            &&& after.platform == ledger.platform
            &&& !lists_order(entries, order) ==> after.get_escrow(order) == ledger.get_escrow(order)
            &&& ledger.escrows.contains_key(order) ==> after.escrows.contains_key(order)
        }),
    decreases entries.len(),
{
    if entries.len() > 0 {
        let shorter = entries.drop_last();
        lemma_open_all_keeps(ledger, shorter, order);
        if !lists_order(entries, order) {
            assert(entries[entries.len() - 1].0 != order);
            assert forall|i: int| 0 <= i < shorter.len() implies (#[trigger] shorter[i]).0
                != order by {
                assert(entries[i].0 != order);
            }
        }
    }
}

/// The entries of a batch that is not refused are all valid.
proof fn lemma_batch_valid(ledger: LedgerView, entries: Seq<BatchEntry>, i: int)
    requires
        ledger.batch_error(entries) is None,
        0 <= i < entries.len(),
    ensures
        ledger.entry_error(entries[i]) is None,
    decreases entries.len(),
{
    if i < entries.len() - 1 {
        lemma_batch_valid(ledger, entries.drop_last(), i);
    }
}

/// A batch is accepted exactly if each of its entries is valid: all amounts are
/// positive, and no order number is taken.
pub proof fn law_batch_accepted_if_all_valid(ledger: LedgerView, entries: Seq<BatchEntry>)
    ensures
        ledger.batch_deposit(entries).1 is Ok <==> forall|i: int|
            0 <= i < entries.len() ==> (#[trigger] ledger.entry_error(entries[i])) is None,
    decreases entries.len(),
{
    if ledger.batch_error(entries) is None {
        assert forall|i: int| 0 <= i < entries.len() implies (#[trigger] ledger.entry_error(
            entries[i],
        )) is None by {
            lemma_batch_valid(ledger, entries, i);
        }
    } else if ledger.batch_error(entries.drop_last()) is None {
        assert(ledger.entry_error(entries[entries.len() - 1]) is Some);
    } else {
        let shorter = entries.drop_last();
        law_batch_accepted_if_all_valid(ledger, shorter);
        let i = choose|i: int|
            0 <= i < shorter.len() && (#[trigger] ledger.entry_error(shorter[i])) is Some;
        assert(ledger.entry_error(entries[i]) is Some);
    }
}

/// An accepted batch stores each entry as it was given, unless a later entry of
/// the same batch has the same order number.
pub proof fn law_batch_stores_entries(ledger: LedgerView, entries: Seq<BatchEntry>, i: int)
    requires
        ledger.batch_deposit(entries).1 is Ok,
        0 <= i < entries.len(),
        forall|j: int| i < j < entries.len() ==> (#[trigger] entries[j]).0 != entries[i].0,
    ensures
        ledger.batch_deposit(entries).0.get_escrow(entries[i].0) == Some(
            model::entry_escrow(entries[i]),
        ),
{
    lemma_open_all_stores(ledger, entries, i);
}

proof fn lemma_open_all_stores(ledger: LedgerView, entries: Seq<BatchEntry>, i: int)
    requires
        0 <= i < entries.len(),
        forall|j: int| i < j < entries.len() ==> (#[trigger] entries[j]).0 != entries[i].0,
    ensures
        ledger.open_all(entries).get_escrow(entries[i].0) == Some(model::entry_escrow(entries[i])),
    decreases entries.len(),
{
    if i < entries.len() - 1 {
        assert(entries[entries.len() - 1].0 != entries[i].0);
        lemma_open_all_stores(ledger, entries.drop_last(), i);
    }
}

/// A call that names an order leaves every other order as it was.
pub proof fn law_orders_independent(ledger: LedgerView, call: Call, order: u64)
    requires
        !names_order(call, order),
    ensures
        ledger.step(call).get_escrow(order) == ledger.get_escrow(order),
{
    if let Call::BatchDeposit { entries } = call {
        lemma_open_all_keeps(ledger, entries, order);
    }
}

/// No call removes an order or changes its parties, its token, its amount or its
/// timeout. Only its status changes, and a settled status not even that.
pub proof fn law_terms_kept(ledger: LedgerView, call: Call, order: u64)
    requires
        ledger.escrows.contains_key(order),
        ledger.completes(call),
    ensures
        ledger.step(call).escrows.contains_key(order),
        ledger.step(call).escrows[order] == (Escrow {
            status: ledger.step(call).escrows[order].status,
            ..ledger.escrows[order]
        }),
        ledger.escrows[order].status.settled() ==> ledger.step(call).escrows[order]
            == ledger.escrows[order],
{
    if let Call::BatchDeposit { entries } = call {
        lemma_open_all_keeps(ledger, entries, order);
        if ledger.batch_error(entries) is None && lists_order(entries, order) {
            let i = choose|i: int| 0 <= i < entries.len() && (#[trigger] entries[i]).0 == order;
            lemma_batch_valid(ledger, entries, i);
        }
    }
}

/// Whatever is called, and however often: no order is lost, each keeps its terms,
/// and one that has been settled stays settled the way it was.
pub proof fn law_settled_for_good(ledger: LedgerView, calls: Seq<Call>, order: u64)
    requires
        ledger.escrows.contains_key(order),
        ledger.runs(calls),
    ensures
        ledger.run(calls).escrows.contains_key(order),
        ledger.run(calls).escrows[order] == (Escrow {
            status: ledger.run(calls).escrows[order].status,
            ..ledger.escrows[order]
        }),
        ledger.escrows[order].status.settled() ==> ledger.run(calls).escrows[order]
            == ledger.escrows[order],
    decreases calls.len(),
{
    if calls.len() > 0 {
        law_settled_for_good(ledger, calls.drop_last(), order);
        law_terms_kept(ledger.run(calls.drop_last()), calls.last(), order);
    }
}

/// An order is settled once. After a release, a refund or the resolution of a
/// dispute, a release or a refund is refused as already settled, and so is a
/// dispute by one of the parties; there is nothing left to resolve.
pub proof fn law_settled_once(ledger: LedgerView, order: u64, platform_fee_bps: u32, caller: Address)
    requires
        ledger.escrows.contains_key(order),
        ledger.escrows[order].status.settled(),
        platform_fee_bps <= MAX_FEE_BPS,
        caller == ledger.escrows[order].buyer || caller == ledger.escrows[order].farmer,
    ensures
        ledger.release(order, platform_fee_bps).1 == Err::<(), _>(EscrowError::AlreadySettled),
        ledger.refund(order).1 == Err::<(), _>(EscrowError::AlreadySettled),
        ledger.dispute(order, caller).1 == Err::<(), _>(EscrowError::AlreadySettled),
        !ledger.resolvable(order),
{
}

/// A release, a refund and the resolution of a dispute settle the order.
pub proof fn law_settling_calls(
    ledger: LedgerView,
    order: u64,
    platform_fee_bps: u32,
    release_to_farmer: bool,
)
    ensures
        ledger.release(order, platform_fee_bps).1 is Ok ==> ledger.release(
            order,
            platform_fee_bps,
        ).0.escrows[order].status is Released,
        ledger.refund(order).1 is Ok ==> ledger.refund(order).0.escrows[order].status is Refunded,
        ledger.resolve_dispute(order, release_to_farmer).escrows[order].status == (
        if release_to_farmer {
            EscrowStatus::Released
        } else {
            EscrowStatus::Refunded
        }),
{
}

/// A disputed order cannot be released by its buyer, at any fee that is allowed.
pub proof fn law_disputed_not_released(ledger: LedgerView, order: u64, platform_fee_bps: u32)
    requires
        ledger.escrows.contains_key(order),
        ledger.escrows[order].status is Disputed,
        platform_fee_bps <= MAX_FEE_BPS,
    ensures
        ledger.release(order, platform_fee_bps).1 == Err::<(), _>(EscrowError::InDispute),
{
}

/// An unsettled order is refunded from its timeout on, and not a second earlier.
pub proof fn law_refund_from_timeout_on(ledger: LedgerView, order: u64)
    requires
        ledger.escrows.contains_key(order),
        !ledger.escrows[order].status.settled(),
    ensures
        ledger.refund(order).1 == (if ledger.timestamp < ledger.escrows[order].timeout_unix {
            Err(EscrowError::TimeoutNotReached)
        } else {
            Ok(())
        }),
{
}

/// The administrator is named once: no call replaces them.
pub proof fn law_admin_fixed(ledger: LedgerView, call: Call)
    requires
        ledger.admin is Some,
        ledger.completes(call),
    ensures
        ledger.step(call).admin == ledger.admin,
{
    if let Call::BatchDeposit { entries } = call {
        lemma_open_all_keeps(ledger, entries, 0);
    }
}

/// What is deposited can be read back, and what is deposited under a number that
/// is taken, or with an amount that is not positive, is refused.
pub proof fn law_deposit_then_get(ledger: LedgerView, entry: BatchEntry)
    ensures
        ledger.deposit(entry).1 is Ok <==> entry.4 > 0 && ledger.get_escrow(entry.0) is None,
        ledger.deposit(entry).1 is Ok ==> ledger.deposit(entry).0.get_escrow(entry.0) == Some(
            model::entry_escrow(entry),
        ),
{
}

/// A call that returns an error changes nothing on the ledger. At most it asks
/// the host for an authorisation.
pub proof fn law_refusal_changes_nothing(ledger: LedgerView, call: Call)
    requires
        ledger.outcome(call).1 is Err,
    ensures
        ledger.step(call) == (LedgerView { effects: ledger.step(call).effects, ..ledger }),
        ledger.step(call).effects == ledger.effects || exists|who: Address|
            ledger.step(call).effects == #[trigger] ledger.effects.push(Effect::RequireAuth(who)),
{
}

/// Whether the effect at a position, if it writes an escrow, is followed by the
/// extension of that escrow's lifetime.
pub open spec fn extended_at(effects: Seq<Effect>, i: int) -> bool {
    effects[i] matches Effect::Put(DataKey::Escrow(order)) ==> {
        &&& i + 1 < effects.len()
        &&& effects[i + 1] == (Effect::ExtendTtl {
            key: DataKey::Escrow(order),
            threshold: TTL_MIN,
            extend_to: TTL_MAX,
        })
    }
}

/// Whether every write of an escrow is followed by the extension of its lifetime.
pub open spec fn all_extended(effects: Seq<Effect>) -> bool {
    forall|i: int| 0 <= i < effects.len() ==> #[trigger] extended_at(effects, i)
}

/// Another effect than the write of an escrow extends nothing and needs nothing.
proof fn lemma_extended_emit(ledger: LedgerView, effect: Effect)
    requires
        all_extended(ledger.effects),
        !(effect matches Effect::Put(DataKey::Escrow(_))),
    ensures
        all_extended(ledger.emit(effect).effects),
{
    let after = ledger.emit(effect).effects;
    assert forall|i: int| 0 <= i < after.len() implies #[trigger] extended_at(after, i) by {
        if i < ledger.effects.len() {
            assert(extended_at(ledger.effects, i));
        }
    }
}

proof fn lemma_extended_put(ledger: LedgerView, order: u64, escrow: Escrow)
    requires
        all_extended(ledger.effects),
    ensures
        all_extended(ledger.put_escrow(order, escrow).effects),
{
    let after = ledger.put_escrow(order, escrow).effects;
    assert forall|i: int| 0 <= i < after.len() implies #[trigger] extended_at(after, i) by {
        if i < ledger.effects.len() {
            assert(extended_at(ledger.effects, i));
        }
    }
}

proof fn lemma_extended_open(ledger: LedgerView, entry: BatchEntry)
    requires
        all_extended(ledger.effects),
    ensures
        all_extended(ledger.open_entry(entry).effects),
{
    let escrow = model::entry_escrow(entry);
    let asked = ledger.emit(Effect::RequireAuth(escrow.buyer));
    let transfer = Effect::Transfer {
        token: escrow.token,
        from: escrow.buyer,
        to: ledger.contract,
        amount: escrow.amount,
    };
    lemma_extended_emit(ledger, Effect::RequireAuth(escrow.buyer));
    lemma_extended_emit(asked, transfer);
    lemma_extended_put(asked.emit(transfer), entry.0, escrow);
}

proof fn lemma_extended_open_all(ledger: LedgerView, entries: Seq<BatchEntry>)
    requires
        all_extended(ledger.effects),
    ensures
        all_extended(ledger.open_all(entries).effects),
    decreases entries.len(),
{
    if entries.len() > 0 {
        lemma_extended_open_all(ledger, entries.drop_last());
        lemma_extended_open(ledger.open_all(entries.drop_last()), entries.last());
    }
}

proof fn lemma_extended_settle(
    ledger: LedgerView,
    order: u64,
    to: Address,
    amount: i128,
    status: EscrowStatus,
)
    requires
        all_extended(ledger.effects),
    ensures
        all_extended(
            ledger.pay(ledger.escrows[order].token, to, amount).mark(order, status).effects,
        ),
{
    let token = ledger.escrows[order].token;
    lemma_extended_emit(
        ledger,
        Effect::Transfer { token, from: ledger.contract, to, amount },
    );
    let paid = ledger.pay(token, to, amount);
    lemma_extended_put(paid, order, Escrow { status, ..paid.escrows[order] });
}

/// Every write of an escrow extends the lifetime of its entry, so that no call
/// leaves an escrow to expire.
pub proof fn law_lifetimes_extended(ledger: LedgerView, call: Call)
    requires
        all_extended(ledger.effects),
    ensures
        all_extended(ledger.step(call).effects),
{
    match call {
        Call::Wait { .. } => {},
        Call::Init { platform } => {
            lemma_extended_emit(
                LedgerView { platform: Some(platform), ..ledger },
                Effect::Put(DataKey::Platform),
            );
        },
        Call::SetAdmin { admin } => {
            lemma_extended_emit(ledger, Effect::RequireAuth(admin));
            lemma_extended_emit(
                LedgerView { admin: Some(admin), ..ledger.emit(Effect::RequireAuth(admin)) },
                Effect::Put(DataKey::Admin),
            );
        },
        Call::Deposit { entry } => {
            lemma_extended_emit(ledger, Effect::RequireAuth(entry.1));
            lemma_extended_open(ledger, entry);
        },
        Call::BatchDeposit { entries } => {
            lemma_extended_open_all(ledger, entries);
        },
        Call::Release { order_id, platform_fee_bps } => {
            let escrow = ledger.escrows[order_id];
            let fee = ledger.release_fee(order_id, platform_fee_bps);
            let asked = ledger.emit(Effect::RequireAuth(escrow.buyer));
            let charged = asked.pay(escrow.token, ledger.platform->0, fee as i128);
            let rest = (escrow.amount - fee) as i128;
            lemma_extended_emit(ledger, Effect::RequireAuth(escrow.buyer));
            lemma_extended_emit(
                asked,
                Effect::Transfer {
                    token: escrow.token,
                    from: ledger.contract,
                    to: ledger.platform->0,
                    amount: fee as i128,
                },
            );
            lemma_extended_settle(asked, order_id, escrow.farmer, rest, EscrowStatus::Released);
            lemma_extended_settle(charged, order_id, escrow.farmer, rest, EscrowStatus::Released);
        },
        Call::Refund { order_id } => {
            let escrow = ledger.escrows[order_id];
            let asked = ledger.emit(Effect::RequireAuth(escrow.buyer));
            lemma_extended_emit(ledger, Effect::RequireAuth(escrow.buyer));
            lemma_extended_settle(
                asked,
                order_id,
                escrow.buyer,
                escrow.amount,
                EscrowStatus::Refunded,
            );
        },
        Call::Dispute { order_id, caller } => {
            let asked = ledger.emit(Effect::RequireAuth(caller));
            lemma_extended_emit(ledger, Effect::RequireAuth(caller));
            lemma_extended_put(
                asked,
                order_id,
                Escrow { status: EscrowStatus::Disputed, ..asked.escrows[order_id] },
            );
        },
        Call::ResolveDispute { order_id, .. } => {
            let escrow = ledger.escrows[order_id];
            let asked = ledger.emit(Effect::RequireAuth(ledger.admin->0));
            lemma_extended_emit(ledger, Effect::RequireAuth(ledger.admin->0));
            lemma_extended_settle(
                asked,
                order_id,
                escrow.farmer,
                escrow.amount,
                EscrowStatus::Released,
            );
            lemma_extended_settle(
                asked,
                order_id,
                escrow.buyer,
                escrow.amount,
                EscrowStatus::Refunded,
            );
        },
    }
}

/// The effects that a call adds.
pub open spec fn added(ledger: LedgerView, call: Call) -> Seq<Effect> {
    ledger.step(call).effects.skip(ledger.effects.len() as int)
}

proof fn lemma_open_all_announces(ledger: LedgerView, entries: Seq<BatchEntry>, order: u64)
    ensures
        ledger.effects.is_prefix_of(ledger.open_all(entries).effects),
        lists_order(entries, order) ==> ledger.open_all(entries).effects.skip(
            ledger.effects.len() as int,
        ).contains(Effect::Put(DataKey::Escrow(order))),
    decreases entries.len(),
{
    if entries.len() > 0 {
        let shorter = entries.drop_last();
        let n = ledger.effects.len() as int;
        let before = ledger.open_all(shorter).effects;
        let after = ledger.open_all(entries).effects;
        let put = Effect::Put(DataKey::Escrow(order));
        lemma_open_all_announces(ledger, shorter, order);
        assert(after.take(before.len() as int) =~= before);
        assert(forall|i: int| 0 <= i < before.len() ==> #[trigger] after[i] == before[i]);
        if lists_order(shorter, order) {
            let i = choose|i: int| 0 <= i < before.skip(n).len() && before.skip(n)[i] == put;
            assert(after.skip(n)[i] == put);
        } else if lists_order(entries, order) {
            let i = choose|i: int| 0 <= i < entries.len() && (#[trigger] entries[i]).0 == order;
            if i < shorter.len() {
                assert(shorter[i].0 == order);
            }
            assert(after[before.len() as int + 2] == put);
            assert(after.skip(n)[before.len() + 2 - n] == put);
        }
    }
}

/// Every change of the ledger is listed among the effects, so that the host
/// writes it: the record of an order, the administrator and the platform. No
/// call takes back an effect that was asked for before.
pub proof fn law_changes_announced(ledger: LedgerView, call: Call, order: u64)
    requires
        ledger.completes(call),
    ensures
        ledger.effects.is_prefix_of(ledger.step(call).effects),
        ledger.step(call).get_escrow(order) != ledger.get_escrow(order) ==> added(
            ledger,
            call,
        ).contains(Effect::Put(DataKey::Escrow(order))),
        ledger.step(call).admin != ledger.admin ==> added(ledger, call).contains(
            Effect::Put(DataKey::Admin),
        ),
        ledger.step(call).platform != ledger.platform ==> added(ledger, call).contains(
            Effect::Put(DataKey::Platform),
        ),
{
    let after = ledger.step(call).effects;
    let n = ledger.effects.len() as int;
    let last = after.len() - 1 - n;
    if let Call::BatchDeposit { entries } = call {
        lemma_open_all_announces(ledger, entries, order);
        lemma_open_all_keeps(ledger, entries, order);
    } else {
        assert(after.take(n) =~= ledger.effects);
        if n < after.len() {
            assert(added(ledger, call)[last] == after[after.len() - 1]);
            if n + 1 < after.len() {
                assert(added(ledger, call)[last - 1] == after[after.len() - 2]);
            }
        }
    }
}

/// What a buyer has deposited goes back to them in full, in the same token, by a
/// refund from the timeout on.
pub proof fn law_deposit_then_refund(ledger: LedgerView, entry: BatchEntry, timestamp: u64)
    requires
        ledger.deposit(entry).1 is Ok,
        timestamp >= entry.5,
    ensures
        ({
            let later = ledger.deposit(entry).0.step(Call::Wait { timestamp });
            let (after, result) = later.refund(entry.0);
            &&& result is Ok
            &&& after.effects == later.effects.push(Effect::RequireAuth(entry.1)).push(
                Effect::Transfer {
                    token: entry.3,
                    from: ledger.contract,
                    to: entry.1,
                    amount: entry.4,
                },
            ).push(Effect::Put(DataKey::Escrow(entry.0))).push(
                Effect::ExtendTtl {
                    key: DataKey::Escrow(entry.0),
                    threshold: TTL_MIN,
                    extend_to: TTL_MAX,
                },
            )
        }),
{
}

/// Before anything else is asked of the host, a deposit asks for the buyer's
/// authorisation, a dispute for the caller's, the naming of an administrator for
/// theirs, a release or a refund for the buyer's, and the resolution of a dispute
/// for the administrator's. A release or refund that asks for none is refused.
pub proof fn law_authorised_first(ledger: LedgerView, call: Call)
    requires
        ledger.completes(call),
    ensures
        match call {
            Call::SetAdmin { admin } => added(ledger, call)[0] == Effect::RequireAuth(admin),
            Call::Deposit { entry } => added(ledger, call)[0] == Effect::RequireAuth(entry.1),
            Call::Dispute { caller, .. } => added(ledger, call)[0] == Effect::RequireAuth(caller),
            Call::Release { order_id, .. } | Call::Refund { order_id } => {
                if added(ledger, call).len() == 0 {
                    ledger.outcome(call).1 is Err
                } else {
                    added(ledger, call)[0] == Effect::RequireAuth(ledger.escrows[order_id].buyer)
                }
            },
            Call::ResolveDispute { .. } => added(ledger, call)[0] == Effect::RequireAuth(
                ledger.admin->0,
            ),
            _ => true,
        },
{
}

/// Each payment that a batch asks for is preceded by the request for the
/// authorisation of the buyer who pays.
pub proof fn law_batch_authorised(ledger: LedgerView, entries: Seq<BatchEntry>, i: int)
    requires
        ledger.effects.len() <= i < ledger.batch_deposit(entries).0.effects.len(),
        ledger.batch_deposit(entries).0.effects[i] is Transfer,
    ensures
        ledger.effects.len() < i,
        ledger.batch_deposit(entries).0.effects[i - 1] == Effect::RequireAuth(
            ledger.batch_deposit(entries).0.effects[i]->from,
        ),
{
    lemma_open_all_authorised(ledger, entries, i);
}

proof fn lemma_open_all_authorised(ledger: LedgerView, entries: Seq<BatchEntry>, i: int)
    requires
        ledger.effects.len() <= i < ledger.open_all(entries).effects.len(),
        ledger.open_all(entries).effects[i] is Transfer,
    ensures
        ledger.effects.len() < i,
        ledger.open_all(entries).effects[i - 1] == Effect::RequireAuth(
            ledger.open_all(entries).effects[i]->from,
        ),
    decreases entries.len(),
{
    let before = ledger.open_all(entries.drop_last()).effects;
    lemma_open_all_announces(ledger, entries.drop_last(), 0);
    if i < before.len() {
        lemma_open_all_authorised(ledger, entries.drop_last(), i);
    }
}

} // verus!
