//! What each operation is for, in terms of what goes in and what comes out: when
//! it is accepted, which payments it asks for, and what it leaves on the ledger.

use vstd::prelude::*;

use crate::address::Address;
use crate::escrow::contract::Ledger;
use crate::escrow::model::{self, LedgerView};
use crate::escrow::types::{BatchEntry, DataKey, Effect, Escrow, EscrowError, EscrowStatus};

verus! {

/// Whether `fee` is `bps` ten-thousandths of the amount, cut off towards zero.
pub open spec fn is_fee(fee: int, amount: int, bps: int) -> bool {
    if amount * bps >= 0 {
        fee * 10_000 <= amount * bps < fee * 10_000 + 10_000
    } else {
        fee * 10_000 - 10_000 < amount * bps <= fee * 10_000
    }
}

/// What the host is asked for when the record of an order is written.
pub open spec fn written(order: u64) -> Seq<Effect> {
    seq![
        Effect::Put(DataKey::Escrow(order)),
        Effect::ExtendTtl {
            key: DataKey::Escrow(order),
            threshold: 100_000,
            extend_to: 200_000,
        },
    ]
}

/// The contract works on the ledger value as it stands.
pub proof fn law_ledger_as_it_stands(ledger: Ledger)
    ensures
        ledger@.timestamp == ledger.timestamp,
        ledger@.contract == ledger.contract,
        ledger@.admin == ledger.admin,
        ledger@.platform == ledger.platform,
        ledger@.escrows == ledger.escrows@,
        ledger@.effects == ledger.effects@,
{
}

/// The fee is the given part of the amount, cut off towards zero, and no other
/// number is. It can be computed exactly if the product fits in an `i128`.
pub proof fn law_fee_is_the_part_asked_for(amount: int, bps: int, fee: int)
    ensures
        is_fee(model::fee_of(amount, bps), amount, bps),
        is_fee(fee, amount, bps) ==> fee == model::fee_of(amount, bps),
        model::fee_fits(amount, bps) <==> i128::MIN <= amount * bps <= i128::MAX,
{
}

/// The platform that is registered is the one that gets the fees from then on.
/// Nothing else changes, and nobody is asked.
pub proof fn law_init_registers_the_platform(ledger: LedgerView, platform: Address)
    ensures
        ledger.init(platform) == (LedgerView {
            platform: Some(platform),
            effects: ledger.effects + seq![Effect::Put(DataKey::Platform)],
            ..ledger
        }),
{
}

/// Whoever is named becomes the administrator, with their own authorisation.
/// Nothing else changes.
pub proof fn law_set_admin_names_the_admin(ledger: LedgerView, admin: Address)
    ensures
        ledger.set_admin(admin) == (LedgerView {
            admin: Some(admin),
            effects: ledger.effects + seq![
                Effect::RequireAuth(admin),
                Effect::Put(DataKey::Admin),
            ],
            ..ledger
        }),
{
}

/// Reading an order gives its record, whatever its state and whatever the time,
/// and nothing where there is none.
pub proof fn law_get_reads_the_record(ledger: LedgerView, order: u64, escrow: Escrow)
    ensures
        ledger.get_escrow(order) == Some(escrow) <==> ledger.escrows.contains_key(order)
            && ledger.escrows[order] == escrow,
        ledger.get_escrow(order) is None <==> !ledger.escrows.contains_key(order),
{
}

/// A deposit is accepted exactly if the amount is positive and the order is new,
/// at any time and with any timeout. An amount that is not positive is named
/// first.
pub proof fn law_deposit_accepted(
    ledger: LedgerView,
    token: Address,
    order: u64,
    buyer: Address,
    farmer: Address,
    amount: i128,
    timeout_unix: u64,
)
    ensures
        ({
            let result = ledger.deposit((order, buyer, farmer, token, amount, timeout_unix)).1;
            &&& result is Ok <==> amount > 0 && !ledger.escrows.contains_key(order)
            &&& result == Err::<(), _>(EscrowError::InvalidAmount) <==> amount <= 0
            &&& result == Err::<(), _>(EscrowError::AlreadyExists) <==> amount > 0
                && ledger.escrows.contains_key(order)
        }),
{
}

/// After an accepted deposit the record of the order holds the arguments as they
/// were given, and is active. No other order has changed.
pub proof fn law_deposit_stores_the_arguments(
    ledger: LedgerView,
    token: Address,
    order: u64,
    buyer: Address,
    farmer: Address,
    amount: i128,
    timeout_unix: u64,
)
    requires
        ledger.deposit((order, buyer, farmer, token, amount, timeout_unix)).1 is Ok,
    ensures
        ({
            let after = ledger.deposit((order, buyer, farmer, token, amount, timeout_unix)).0;
            &&& after.escrows.dom() == ledger.escrows.dom().insert(order)
            &&& after.escrows.remove(order) == ledger.escrows.remove(order)
            &&& after.escrows[order].buyer == buyer
            &&& after.escrows[order].farmer == farmer
            &&& after.escrows[order].token == token
            &&& after.escrows[order].amount == amount
            &&& after.escrows[order].timeout_unix == timeout_unix
            &&& after.escrows[order].status is Active
        }),
{
}

/// A deposit has the buyer authorise it; one that is accepted then moves the
/// amount, in the given token, from the buyer to the contract. Beyond the record
/// nothing is written, and a refused deposit leaves the ledger as it was.
pub proof fn law_deposit_takes_the_amount(
    ledger: LedgerView,
    token: Address,
    order: u64,
    buyer: Address,
    farmer: Address,
    amount: i128,
    timeout_unix: u64,
)
    ensures
        ({
            let (after, result) = ledger.deposit(
                (order, buyer, farmer, token, amount, timeout_unix),
            );
            &&& after.timestamp == ledger.timestamp
            &&& after.contract == ledger.contract
            &&& after.admin == ledger.admin
            &&& after.platform == ledger.platform
            &&& result is Err ==> {
                &&& after.escrows == ledger.escrows
                &&& after.effects == ledger.effects + seq![Effect::RequireAuth(buyer)]
            }
            &&& result is Ok ==> after.effects == ledger.effects + seq![
                Effect::RequireAuth(buyer),
                Effect::Transfer { token, from: buyer, to: ledger.contract, amount },
            ] + written(order)
        }),
{
}

/// From an accepted deposit on, a refund is refused before the timeout that was
/// given, and accepted from it on.
pub proof fn law_deposit_sets_the_time_of_refund(
    ledger: LedgerView,
    token: Address,
    order: u64,
    buyer: Address,
    farmer: Address,
    amount: i128,
    timeout_unix: u64,
    timestamp: u64,
)
    requires
        ledger.deposit((order, buyer, farmer, token, amount, timeout_unix)).1 is Ok,
    ensures
        ({
            let after = ledger.deposit((order, buyer, farmer, token, amount, timeout_unix)).0;
            let later = LedgerView { timestamp, ..after };
            &&& timestamp < timeout_unix ==> later.refund(order).1 == Err::<(), _>(
                EscrowError::TimeoutNotReached,
            )
            &&& timestamp >= timeout_unix ==> later.refund(order).1 is Ok
        }),
{
}

/// From an accepted deposit on, the buyer can release the order without a fee,
/// at any time, and the farmer then gets the deposited amount in the deposited
/// token.
pub proof fn law_deposit_then_release(
    ledger: LedgerView,
    token: Address,
    order: u64,
    buyer: Address,
    farmer: Address,
    amount: i128,
    timeout_unix: u64,
    timestamp: u64,
)
    requires
        ledger.deposit((order, buyer, farmer, token, amount, timeout_unix)).1 is Ok,
    ensures
        ({
            let after = ledger.deposit((order, buyer, farmer, token, amount, timeout_unix)).0;
            let later = LedgerView { timestamp, ..after };
            &&& later.release_fits(order, 0)
            &&& later.release(order, 0).1 is Ok
            &&& later.release(order, 0).0.effects == later.effects + seq![
                Effect::RequireAuth(buyer),
                Effect::Transfer { token, from: ledger.contract, to: farmer, amount },
            ] + written(order)
        }),
{
    let after = ledger.deposit((order, buyer, farmer, token, amount, timeout_unix)).0;
    let later = LedgerView { timestamp, ..after };
    law_release_pays_farmer_and_platform(later, order, 0, 0, amount);
}

/// A batch is accepted exactly if every amount is positive and every order is new
/// to the ledger.
pub proof fn law_batch_accepted(ledger: LedgerView, entries: Seq<BatchEntry>)
    ensures
        ledger.batch_deposit(entries).1 is Ok <==> forall|i: int|
            0 <= i < entries.len() ==> (#[trigger] entries[i]).4 > 0
                && !ledger.escrows.contains_key(entries[i].0),
{
    lemma_batch_error(ledger, entries);
    if ledger.batch_error(entries) is Some {
        let i = choose|i: int|
            0 <= i < entries.len() && !((#[trigger] entries[i]).4 > 0
                && !ledger.escrows.contains_key(entries[i].0));
        assert(!(entries[i].4 > 0 && !ledger.escrows.contains_key(entries[i].0)));
    }
}

proof fn lemma_batch_error(ledger: LedgerView, entries: Seq<BatchEntry>)
    ensures
        ledger.batch_error(entries) is None <==> forall|i: int|
            0 <= i < entries.len() ==> (#[trigger] entries[i]).4 > 0
                && !ledger.escrows.contains_key(entries[i].0),
    decreases entries.len(),
{
    if entries.len() > 0 {
        let shorter = entries.drop_last();
        lemma_batch_error(ledger, shorter);
        if ledger.batch_error(entries) is None {
            assert forall|i: int| 0 <= i < entries.len() implies (#[trigger] entries[i]).4 > 0
                && !ledger.escrows.contains_key(entries[i].0) by {
                if i < shorter.len() {
                    assert(shorter[i].4 > 0 && !ledger.escrows.contains_key(shorter[i].0));
                }
            }
        } else if ledger.batch_error(shorter) is Some {
            let i = choose|i: int|
                0 <= i < shorter.len() && !((#[trigger] shorter[i]).4 > 0
                    && !ledger.escrows.contains_key(shorter[i].0));
            assert(!(entries[i].4 > 0 && !ledger.escrows.contains_key(entries[i].0)));
        } else {
            let last = entries[entries.len() - 1];
            assert(!(last.4 > 0 && !ledger.escrows.contains_key(last.0)));
        }
    }
}

/// A batch is refused for its first entry with an amount that is not positive or
/// an order that exists, and then leaves the ledger as it was, without asking for
/// anything.
pub proof fn law_batch_refused_for_its_first_fault(
    ledger: LedgerView,
    entries: Seq<BatchEntry>,
    i: int,
)
    requires
        0 <= i < entries.len(),
        entries[i].4 <= 0 || ledger.escrows.contains_key(entries[i].0),
        forall|j: int|
            0 <= j < i ==> (#[trigger] entries[j]).4 > 0 && !ledger.escrows.contains_key(
                entries[j].0,
            ),
    ensures
        ledger.batch_deposit(entries).0 == ledger,
        ledger.batch_deposit(entries).1 == (if entries[i].4 <= 0 {
            Err::<(), _>(EscrowError::InvalidAmount)
        } else {
            Err(EscrowError::AlreadyExists)
        }),
{
    let before = entries.take(i);
    assert forall|j: int| 0 <= j < before.len() implies (#[trigger] before[j]).4 > 0
        && !ledger.escrows.contains_key(before[j].0) by {
        assert(entries[j].4 > 0 && !ledger.escrows.contains_key(entries[j].0));
    }
    lemma_batch_error(ledger, before);
    model::lemma_first_error(ledger, entries, i);
}

/// What an accepted batch asks for: for each entry in turn, the authorisation of
/// its buyer, the transfer of its amount in its token from the buyer to the
/// contract, and the write of its record; and nothing else.
pub proof fn law_batch_takes_each_amount(ledger: LedgerView, entries: Seq<BatchEntry>, i: int)
    requires
        ledger.batch_deposit(entries).1 is Ok,
    ensures
        ({
            let effects = ledger.batch_deposit(entries).0.effects;
            let start = ledger.effects.len() as int;
            &&& effects.len() == start + 4 * entries.len()
            &&& effects.take(start) == ledger.effects
            &&& 0 <= i < entries.len() ==> effects.subrange(start + 4 * i, start + 4 * i + 4)
                == seq![
                Effect::RequireAuth(entries[i].1),
                Effect::Transfer {
                    token: entries[i].3,
                    from: entries[i].1,
                    to: ledger.contract,
                    amount: entries[i].4,
                },
            ] + written(entries[i].0)
        }),
{
    lemma_open_all_effects(ledger, entries, i);
}

proof fn lemma_open_all_effects(ledger: LedgerView, entries: Seq<BatchEntry>, i: int)
    ensures
        ({
            let after = ledger.open_all(entries);
            let start = ledger.effects.len() as int;
            &&& after.contract == ledger.contract
            &&& after.effects.len() == start + 4 * entries.len()
            &&& after.effects.take(start) =~= ledger.effects
            &&& 0 <= i < entries.len() ==> after.effects.subrange(start + 4 * i, start + 4 * i + 4)
                =~= seq![
                Effect::RequireAuth(entries[i].1),
                Effect::Transfer {
                    token: entries[i].3,
                    from: entries[i].1,
                    to: ledger.contract,
                    amount: entries[i].4,
                },
            ] + written(entries[i].0)
        }),
    decreases entries.len(),
{
    if entries.len() > 0 {
        let shorter = entries.drop_last();
        let start = ledger.effects.len() as int;
        let before = ledger.open_all(shorter).effects;
        let after = ledger.open_all(entries).effects;
        lemma_open_all_effects(ledger, shorter, i);
        assert(after.take(before.len() as int) =~= before);
        assert(after.take(start) =~= before.take(start));
        if 0 <= i < shorter.len() {
            assert(after.subrange(start + 4 * i, start + 4 * i + 4) =~= before.subrange(
                start + 4 * i,
                start + 4 * i + 4,
            ));
        }
    }
}

/// After an accepted batch the orders are those from before and those of the
/// entries. The record of an entry's order holds what the entry says, field by
/// field, and is active, unless a later entry has the same order; every other
/// order, and everything else on the ledger, is as it was.
pub proof fn law_batch_stores_the_entries(
    ledger: LedgerView,
    entries: Seq<BatchEntry>,
    order: u64,
    i: int,
)
    requires
        ledger.batch_deposit(entries).1 is Ok,
    ensures
        ({
            let after = ledger.batch_deposit(entries).0;
            let listed = exists|j: int| 0 <= j < entries.len() && (#[trigger] entries[j]).0
                == order;
            &&& after.timestamp == ledger.timestamp
            &&& after.contract == ledger.contract
            &&& after.admin == ledger.admin
            &&& after.platform == ledger.platform
            &&& after.escrows.contains_key(order) <==> ledger.escrows.contains_key(order) || listed
            &&& !listed && ledger.escrows.contains_key(order) ==> after.escrows[order]
                == ledger.escrows[order]
            &&& (0 <= i < entries.len() && entries[i].0 == order && forall|j: int|
                i < j < entries.len() ==> (#[trigger] entries[j]).0 != order) ==> {
                &&& after.escrows[order].buyer == entries[i].1
                &&& after.escrows[order].farmer == entries[i].2
                &&& after.escrows[order].token == entries[i].3
                &&& after.escrows[order].amount == entries[i].4
                &&& after.escrows[order].timeout_unix == entries[i].5
                &&& after.escrows[order].status is Active
            }
        }),
{
    lemma_open_all_records(ledger, entries, order, i);
}

proof fn lemma_open_all_records(
    ledger: LedgerView,
    entries: Seq<BatchEntry>,
    order: u64,
    i: int,
)
    ensures
        ({
            let after = ledger.open_all(entries);
            let listed = exists|j: int| 0 <= j < entries.len() && (#[trigger] entries[j]).0
                == order;
            &&& after.timestamp == ledger.timestamp
            &&& after.contract == ledger.contract
            &&& after.admin == ledger.admin
            &&& after.platform == ledger.platform
            &&& after.escrows.contains_key(order) <==> ledger.escrows.contains_key(order) || listed
            &&& !listed && ledger.escrows.contains_key(order) ==> after.escrows[order]
                == ledger.escrows[order]
            &&& (0 <= i < entries.len() && entries[i].0 == order && forall|j: int|
                i < j < entries.len() ==> (#[trigger] entries[j]).0 != order) ==> {
                &&& after.escrows[order].buyer == entries[i].1
                &&& after.escrows[order].farmer == entries[i].2
                &&& after.escrows[order].token == entries[i].3
                &&& after.escrows[order].amount == entries[i].4
                &&& after.escrows[order].timeout_unix == entries[i].5
                &&& after.escrows[order].status is Active
            }
        }),
    decreases entries.len(),
{
    if entries.len() > 0 {
        let shorter = entries.drop_last();
        lemma_open_all_records(ledger, shorter, order, i);
        assert(forall|j: int| 0 <= j < shorter.len() ==> #[trigger] shorter[j] == entries[j]);
        if exists|j: int| 0 <= j < shorter.len() && (#[trigger] shorter[j]).0 == order {
            let j = choose|j: int| 0 <= j < shorter.len() && (#[trigger] shorter[j]).0 == order;
            assert(entries[j].0 == order);
        }
        let last = entries.len() - 1;
        if exists|j: int| 0 <= j < entries.len() && (#[trigger] entries[j]).0 == order {
            let j = choose|j: int| 0 <= j < entries.len() && (#[trigger] entries[j]).0 == order;
            if j < last {
                assert(shorter[j].0 == order);
            }
        }
        assert(entries[last] == entries.last());
    }
}

/// A release is within range exactly if it is refused before the fee is worked
/// out, or the amount times the basis points fits in an `i128`.
pub proof fn law_release_in_range(ledger: LedgerView, order: u64, platform_fee_bps: u32)
    ensures
        ledger.release_fits(order, platform_fee_bps) <==> {
            ||| platform_fee_bps > 1000
            ||| !ledger.escrows.contains_key(order)
            ||| !(ledger.escrows[order].status is Active)
            ||| i128::MIN <= ledger.escrows[order].amount * platform_fee_bps <= i128::MAX
        },
{
}

/// When a release is accepted, and what each refusal means: a fee above a tenth,
/// no such order, an order that is settled, one in dispute, or a fee to pay and
/// nobody to pay it to. The time does not matter. A refused release leaves the
/// ledger as it was, and has asked at most for the buyer's authorisation.
pub proof fn law_release_accepted(
    ledger: LedgerView,
    order: u64,
    platform_fee_bps: u32,
    fee: int,
)
    requires
        is_fee(fee, ledger.escrows[order].amount as int, platform_fee_bps as int),
    ensures
        ({
            let (after, result) = ledger.release(order, platform_fee_bps);
            let escrow = ledger.escrows[order];
            let exists_order = ledger.escrows.contains_key(order);
            &&& platform_fee_bps > 1000 ==> result == Err::<(), _>(EscrowError::InvalidAmount)
            &&& platform_fee_bps <= 1000 && !exists_order ==> result == Err::<(), _>(
                EscrowError::NotFound,
            )
            &&& platform_fee_bps <= 1000 && exists_order ==> {
                &&& escrow.status is Released || escrow.status is Refunded ==> result == Err::<
                    (),
                    _,
                >(EscrowError::AlreadySettled)
                &&& escrow.status is Disputed ==> result == Err::<(), _>(EscrowError::InDispute)
                &&& escrow.status is Active && fee > 0 && ledger.platform is None ==> result
                    == Err::<(), _>(EscrowError::NotFound)
                &&& escrow.status is Active && (fee <= 0 || ledger.platform is Some) ==> result
                    is Ok
            }
            &&& result is Err ==> after == (LedgerView {
                effects: if platform_fee_bps <= 1000 && exists_order {
                    ledger.effects + seq![Effect::RequireAuth(escrow.buyer)]
                } else {
                    ledger.effects
                },
                ..ledger
            })
        }),
{
    law_fee_is_the_part_asked_for(
        ledger.escrows[order].amount as int,
        platform_fee_bps as int,
        fee,
    );
}

/// An accepted release has the buyer authorise it, pays the fee, if there is one,
/// to the platform and the rest of the amount to the farmer, both in the order's
/// token and out of the contract, and pays nobody else.
pub proof fn law_release_pays_farmer_and_platform(
    ledger: LedgerView,
    order: u64,
    platform_fee_bps: u32,
    fee: i128,
    rest: i128,
)
    requires
        ledger.release(order, platform_fee_bps).1 is Ok,
        is_fee(fee as int, ledger.escrows[order].amount as int, platform_fee_bps as int),
        fee + rest == ledger.escrows[order].amount,
    ensures
        ({
            let after = ledger.release(order, platform_fee_bps).0;
            let escrow = ledger.escrows[order];
            let to_platform = if fee > 0 {
                seq![
                    Effect::Transfer {
                        token: escrow.token,
                        from: ledger.contract,
                        to: ledger.platform->0,
                        amount: fee,
                    },
                ]
            } else {
                seq![]
            };
            &&& fee > 0 ==> ledger.platform is Some
            &&& after.effects == ledger.effects + seq![Effect::RequireAuth(escrow.buyer)]
                + to_platform + seq![
                Effect::Transfer {
                    token: escrow.token,
                    from: ledger.contract,
                    to: escrow.farmer,
                    amount: rest,
                },
            ] + written(order)
        }),
{
    law_fee_is_the_part_asked_for(
        ledger.escrows[order].amount as int,
        platform_fee_bps as int,
        fee as int,
    );
}

/// The fee and the rest of every accepted release fit in an `i128`, so that
/// there is something for `law_release_pays_farmer_and_platform` to speak of.
pub proof fn law_release_splits_the_amount(
    ledger: LedgerView,
    order: u64,
    platform_fee_bps: u32,
) -> (parts: (i128, i128))
    requires
        platform_fee_bps <= 1000,
    ensures
        is_fee(parts.0 as int, ledger.escrows[order].amount as int, platform_fee_bps as int),
        parts.0 + parts.1 == ledger.escrows[order].amount,
{
    let amount = ledger.escrows[order].amount as int;
    let fee = model::fee_of(amount, platform_fee_bps as int);
    law_fee_is_the_part_asked_for(amount, platform_fee_bps as int, fee);
    model::lemma_fee_between(amount, platform_fee_bps as int);
    (fee as i128, (amount - fee) as i128)
}

/// An accepted release leaves the order released, and everything else on the
/// ledger as it was.
pub proof fn law_release_leaves_it_released(
    ledger: LedgerView,
    order: u64,
    platform_fee_bps: u32,
)
    requires
        ledger.release(order, platform_fee_bps).1 is Ok,
    ensures
        ({
            let after = ledger.release(order, platform_fee_bps).0;
            after == (LedgerView {
                escrows: ledger.escrows.insert(
                    order,
                    Escrow { status: EscrowStatus::Released, ..ledger.escrows[order] },
                ),
                effects: after.effects,
                ..ledger
            })
        }),
{
}

/// A refund is accepted exactly if the order exists, is not settled and its
/// timeout is reached; whether it is in dispute does not matter. Each refusal
/// names the first of these that fails, leaves the ledger as it was, and has
/// asked at most for the buyer's authorisation.
pub proof fn law_refund_accepted(ledger: LedgerView, order: u64)
    ensures
        ({
            let (after, result) = ledger.refund(order);
            let escrow = ledger.escrows[order];
            let exists_order = ledger.escrows.contains_key(order);
            let settled = escrow.status is Released || escrow.status is Refunded;
            &&& result is Ok <==> exists_order && !settled && escrow.timeout_unix
                <= ledger.timestamp
            &&& result == Err::<(), _>(EscrowError::NotFound) <==> !exists_order
            &&& result == Err::<(), _>(EscrowError::AlreadySettled) <==> exists_order && settled
            &&& result == Err::<(), _>(EscrowError::TimeoutNotReached) <==> exists_order
                && !settled && ledger.timestamp < escrow.timeout_unix
            &&& result is Err ==> after == (LedgerView {
                effects: if exists_order {
                    ledger.effects + seq![Effect::RequireAuth(escrow.buyer)]
                } else {
                    ledger.effects
                },
                ..ledger
            })
        }),
{
}

/// An accepted refund has the buyer authorise it, and pays the whole amount, in
/// the order's token, out of the contract to the buyer, and nothing to anybody
/// else. The order is refunded from then on, and everything else is as it was.
pub proof fn law_refund_pays_the_buyer(ledger: LedgerView, order: u64)
    requires
        ledger.refund(order).1 is Ok,
    ensures
        ({
            let escrow = ledger.escrows[order];
            ledger.refund(order).0 == (LedgerView {
                escrows: ledger.escrows.insert(
                    order,
                    Escrow { status: EscrowStatus::Refunded, ..escrow },
                ),
                effects: ledger.effects + seq![
                    Effect::RequireAuth(escrow.buyer),
                    Effect::Transfer {
                        token: escrow.token,
                        from: ledger.contract,
                        to: escrow.buyer,
                        amount: escrow.amount,
                    },
                ] + written(order),
                ..ledger
            })
        }),
{
}

/// A dispute is accepted exactly if the order exists, the caller is its buyer or
/// its farmer, and it is not settled, at any time. Each refusal names the first
/// of these that fails, and leaves the ledger as it was.
pub proof fn law_dispute_accepted(ledger: LedgerView, order: u64, caller: Address)
    ensures
        ({
            let (after, result) = ledger.dispute(order, caller);
            let escrow = ledger.escrows[order];
            let exists_order = ledger.escrows.contains_key(order);
            let party = caller == escrow.buyer || caller == escrow.farmer;
            let settled = escrow.status is Released || escrow.status is Refunded;
            &&& result is Ok <==> exists_order && party && !settled
            &&& result == Err::<(), _>(EscrowError::NotFound) <==> !exists_order
            &&& result == Err::<(), _>(EscrowError::Unauthorized) <==> exists_order && !party
            &&& result == Err::<(), _>(EscrowError::AlreadySettled) <==> exists_order && party
                && settled
            &&& result is Err ==> after == (LedgerView {
                effects: ledger.effects + seq![Effect::RequireAuth(caller)],
                ..ledger
            })
        }),
{
}

/// After every dispute that is accepted the order is in dispute. The caller has
/// been asked to authorise it, no money moves, and everything else is as it was.
pub proof fn law_dispute_puts_in_dispute(ledger: LedgerView, order: u64, caller: Address)
    requires
        ledger.dispute(order, caller).1 is Ok,
    ensures
        ({
            let after = ledger.dispute(order, caller).0;
            &&& after.escrows[order].status is Disputed
            &&& after == (LedgerView {
                escrows: ledger.escrows.insert(
                    order,
                    Escrow { status: EscrowStatus::Disputed, ..ledger.escrows[order] },
                ),
                effects: ledger.effects + seq![Effect::RequireAuth(caller)] + written(order),
                ..ledger
            })
        }),
{
}

/// From an accepted dispute on, at any time, the buyer cannot release the order
/// at any fee that is allowed, and an administrator can resolve it.
pub proof fn law_dispute_blocks_release(
    ledger: LedgerView,
    order: u64,
    caller: Address,
    platform_fee_bps: u32,
    timestamp: u64,
)
    requires
        ledger.dispute(order, caller).1 is Ok,
        platform_fee_bps <= 1000,
    ensures
        ({
            let later = LedgerView { timestamp, ..ledger.dispute(order, caller).0 };
            &&& later.release_fits(order, platform_fee_bps)
            &&& later.release(order, platform_fee_bps).1 == Err::<(), _>(EscrowError::InDispute)
            &&& later.resolvable(order) <==> ledger.admin is Some
        }),
{
}

/// A dispute can be resolved exactly if there is an administrator and the order
/// exists and is in dispute, at any time.
pub proof fn law_resolvable(ledger: LedgerView, order: u64)
    ensures
        ledger.resolvable(order) <==> ledger.admin is Some && ledger.escrows.contains_key(order)
            && ledger.escrows[order].status is Disputed,
{
}

/// The resolution of a dispute has the administrator authorise it, and makes one
/// payment: the whole amount, in the order's token, out of the contract, to the
/// farmer where the administrator decides for the farmer and to the buyer where
/// they do not, at any time. The order is then released or refunded, and
/// everything else is as it was.
pub proof fn law_resolution_pays_the_side_chosen(
    ledger: LedgerView,
    order: u64,
    release_to_farmer: bool,
)
    requires
        ledger.admin is Some,
        ledger.escrows.contains_key(order),
        ledger.escrows[order].status is Disputed,
    ensures
        ({
            let escrow = ledger.escrows[order];
            ledger.resolve_dispute(order, release_to_farmer) == (LedgerView {
                escrows: ledger.escrows.insert(
                    order,
                    Escrow {
                        status: if release_to_farmer {
                            EscrowStatus::Released
                        } else {
                            EscrowStatus::Refunded
                        },
                        ..escrow
                    },
                ),
                effects: ledger.effects + seq![
                    Effect::RequireAuth(ledger.admin->0),
                    Effect::Transfer {
                        token: escrow.token,
                        from: ledger.contract,
                        to: if release_to_farmer {
                            escrow.farmer
                        } else {
                            escrow.buyer
                        },
                        amount: escrow.amount,
                    },
                ] + written(order),
                ..ledger
            })
        }),
{
}

} // verus!
