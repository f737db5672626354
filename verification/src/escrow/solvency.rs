//! The contract holds what it owes.

use vstd::prelude::*;

use crate::address::Address;
use crate::escrow::calls::{lists_order, Call};
use crate::escrow::model::{self, LedgerView};
use crate::escrow::types::{BatchEntry, DataKey, Effect, Escrow, EscrowStatus, TTL_MAX, TTL_MIN};
use crate::sums;

verus! {

/// What the contract owes for one escrow in a token: the amount, until it is
/// settled.
pub open spec fn owed_for(escrow: Escrow, token: Address) -> int {
    if escrow.token == token && !escrow.status.settled() {
        escrow.amount as int
    } else {
        0
    }
}

/// What the contract owes in a token for all escrows together.
pub open spec fn owed(escrows: Map<u64, Escrow>, token: Address) -> int {
    sums::sum_over(escrows.dom(), |order: u64| owed_for(escrows[order], token))
}

/// What one effect adds to the contract's holdings of a token.
pub open spec fn gain(effect: Effect, contract: Address, token: Address) -> int {
    match effect {
        Effect::Transfer { token: moved, from, to, amount } if moved == token => {
            (if to == contract {
                amount as int
            } else {
                0
            }) - (if from == contract {
                amount as int
            } else {
                0
            })
        },
        _ => 0,
    }
}

/// What a sequence of effects adds to the contract's holdings of a token.
pub open spec fn gains(effects: Seq<Effect>, contract: Address, token: Address) -> int
    decreases effects.len(),
{
    if effects.len() == 0 {
        0
    } else {
        gains(effects.drop_last(), contract, token) + gain(effects.last(), contract, token)
    }
}

impl LedgerView {
    /// What the transfers so far have added to the contract's holdings of a token,
    /// beyond what it owes in it.
    pub open spec fn surplus(self, token: Address) -> int {
        gains(self.effects, self.contract, token) - owed(self.escrows, token)
    }

    /// A ledger whose escrows others have paid for: there are finitely many, all
    /// of a positive amount, and the contract itself is the buyer of none.
    pub open spec fn funded(self) -> bool {
        &&& self.escrows.dom().finite()
        &&& forall|order: u64| #[trigger]
            self.escrows.contains_key(order) ==> {
                &&& self.escrows[order].amount > 0
                &&& self.escrows[order].buyer != self.contract
            }
    }

    /// Whether the call is refused, or makes the contract the buyer of no escrow.
    pub open spec fn paid_by_others(self, call: Call) -> bool {
        self.outcome(call).1 is Ok ==> match call {
            Call::Deposit { entry } => entry.1 != self.contract,
            Call::BatchDeposit { entries } => forall|i: int|
                0 <= i < entries.len() ==> (#[trigger] entries[i]).1 != self.contract,
            _ => true,
        }
    }

    /// Whether the call is refused, or pays nothing to the contract itself and
    /// opens no order twice.
    pub open spec fn pays_others(self, call: Call) -> bool {
        self.outcome(call).1 is Ok ==> match call {
            Call::BatchDeposit { entries } => distinct_orders(entries),
            Call::Release { order_id, platform_fee_bps } => {
                &&& self.escrows[order_id].farmer != self.contract
                &&& self.release_fee(order_id, platform_fee_bps) > 0 ==> self.platform != Some(
                    self.contract,
                )
            },
            Call::ResolveDispute { order_id, release_to_farmer } => {
                release_to_farmer ==> self.escrows[order_id].farmer != self.contract
            },
            _ => true,
        }
    }

    /// Whether no call of a sequence makes the contract the buyer of an escrow.
    pub open spec fn all_paid_by_others(self, calls: Seq<Call>) -> bool
        decreases calls.len(),
    {
        calls.len() == 0 || {
            &&& self.all_paid_by_others(calls.drop_last())
            &&& self.run(calls.drop_last()).paid_by_others(calls.last())
        }
    }

    /// Whether no call of a sequence pays anything to the contract itself or opens
    /// an order twice.
    pub open spec fn all_pay_others(self, calls: Seq<Call>) -> bool
        decreases calls.len(),
    {
        calls.len() == 0 || {
            &&& self.all_pay_others(calls.drop_last())
            &&& self.run(calls.drop_last()).pays_others(calls.last())
        }
    }
}

/// Whether no two entries of a batch have the same order number.
pub open spec fn distinct_orders(entries: Seq<BatchEntry>) -> bool {
    forall|i: int, j: int|
        0 <= i < j < entries.len() ==> (#[trigger] entries[i]).0 != (#[trigger] entries[j]).0
}

/// Writing a record changes what is owed by the difference between the new
/// record and the one that it replaces.
proof fn lemma_owed_insert(escrows: Map<u64, Escrow>, order: u64, escrow: Escrow, token: Address)
    requires
        escrows.dom().finite(),
    ensures
        owed(escrows.insert(order, escrow), token) == owed(escrows, token) + owed_for(escrow, token)
            - (if escrows.contains_key(order) {
            owed_for(escrows[order], token)
        } else {
            0
        }),
{
    let after = escrows.insert(order, escrow);
    let old_weight = |k: u64| owed_for(escrows[k], token);
    let new_weight = |k: u64| owed_for(after[k], token);
    let others = escrows.dom().remove(order);
    sums::lemma_sum_same(others, old_weight, new_weight);
    sums::lemma_sum_remove(after.dom(), new_weight, order);
    assert(after.dom().remove(order) =~= others);
    if escrows.contains_key(order) {
        sums::lemma_sum_remove(escrows.dom(), old_weight, order);
    } else {
        assert(others =~= escrows.dom());
    }
}

/// What one more effect adds to the contract's holdings.
proof fn lemma_gains_emit(ledger: LedgerView, effect: Effect, token: Address)
    ensures
        gains(ledger.emit(effect).effects, ledger.contract, token) == gains(
            ledger.effects,
            ledger.contract,
            token,
        ) + gain(effect, ledger.contract, token),
{
    assert(ledger.emit(effect).effects.drop_last() =~= ledger.effects);
}

/// What one more effect does to the surplus.
proof fn lemma_surplus_emit(ledger: LedgerView, effect: Effect, token: Address)
    ensures
        ledger.emit(effect).surplus(token) == ledger.surplus(token) + gain(
            effect,
            ledger.contract,
            token,
        ),
{
    lemma_gains_emit(ledger, effect, token);
}

/// What the write of a record does to the surplus.
proof fn lemma_surplus_put(ledger: LedgerView, order: u64, escrow: Escrow, token: Address)
    requires
        ledger.escrows.dom().finite(),
    ensures
        ledger.put_escrow(order, escrow).surplus(token) == ledger.surplus(token) - owed_for(
            escrow,
            token,
        ) + (if ledger.escrows.contains_key(order) {
            owed_for(ledger.escrows[order], token)
        } else {
            0
        }),
{
    let written = LedgerView { escrows: ledger.escrows.insert(order, escrow), ..ledger };
    let put = Effect::Put(DataKey::Escrow(order));
    let extend = Effect::ExtendTtl {
        key: DataKey::Escrow(order),
        threshold: TTL_MIN,
        extend_to: TTL_MAX,
    };
    lemma_owed_insert(ledger.escrows, order, escrow, token);
    lemma_surplus_emit(written, put, token);
    lemma_surplus_emit(written.emit(put), extend, token);
}

/// Opening an order brings in what is owed for it from then on. Where it takes
/// the place of another, what was owed for that one is left over.
proof fn lemma_surplus_open(ledger: LedgerView, entry: BatchEntry, token: Address)
    requires
        ledger.funded(),
        entry.1 != ledger.contract,
        entry.4 > 0,
    ensures
        ledger.open_entry(entry).funded(),
        ledger.open_entry(entry).surplus(token) >= ledger.surplus(token),
        !ledger.escrows.contains_key(entry.0) ==> ledger.open_entry(entry).surplus(token)
            == ledger.surplus(token),
{
    let escrow = model::entry_escrow(entry);
    let auth = Effect::RequireAuth(escrow.buyer);
    let transfer = Effect::Transfer {
        token: escrow.token,
        from: escrow.buyer,
        to: ledger.contract,
        amount: escrow.amount,
    };
    lemma_surplus_emit(ledger, auth, token);
    lemma_surplus_emit(ledger.emit(auth), transfer, token);
    lemma_surplus_put(ledger.emit(auth).emit(transfer), entry.0, escrow, token);
}

proof fn lemma_surplus_open_all(ledger: LedgerView, entries: Seq<BatchEntry>, token: Address)
    requires
        ledger.funded(),
        forall|i: int| 0 <= i < entries.len() ==> (#[trigger] entries[i]).1 != ledger.contract,
        ledger.batch_error(entries) is None,
    ensures
        ledger.open_all(entries).funded(),
        ledger.open_all(entries).contract == ledger.contract,
        ledger.open_all(entries).surplus(token) >= ledger.surplus(token),
        distinct_orders(entries) ==> ledger.open_all(entries).surplus(token) == ledger.surplus(
            token,
        ),
        forall|order: u64| #[trigger]
            ledger.open_all(entries).escrows.contains_key(order) ==> ledger.escrows.contains_key(
                order,
            ) || lists_order(entries, order),
    decreases entries.len(),
{
    if entries.len() > 0 {
        let shorter = entries.drop_last();
        let entry = entries.last();
        assert forall|i: int| 0 <= i < shorter.len() implies (#[trigger] shorter[i]).1
            != ledger.contract by {
            assert(entries[i].1 != ledger.contract);
        }
        lemma_surplus_open_all(ledger, shorter, token);
        let before = ledger.open_all(shorter);
        assert(entries[entries.len() - 1].1 != ledger.contract);
        lemma_surplus_open(before, entry, token);
        if distinct_orders(entries) {
            assert forall|i: int, j: int| 0 <= i < j < shorter.len() implies (
            #[trigger] shorter[i]).0 != (#[trigger] shorter[j]).0 by {
                assert(entries[i].0 != entries[j].0);
            }
            if before.escrows.contains_key(entry.0) {
                let i = choose|i: int|
                    0 <= i < shorter.len() && (#[trigger] shorter[i]).0 == entry.0;
                assert(entries[i].0 != entries[entries.len() - 1].0);
            }
        }
        assert forall|order: u64| #[trigger]
            ledger.open_all(entries).escrows.contains_key(order) implies ledger.escrows.contains_key(
            order,
        ) || lists_order(entries, order) by {
            if order == entry.0 {
                assert(entries[entries.len() - 1].0 == order);
            } else {
                assert(before.escrows.contains_key(order));
                if lists_order(shorter, order) {
                    let i = choose|i: int|
                        0 <= i < shorter.len() && (#[trigger] shorter[i]).0 == order;
                    assert(entries[i].0 == order);
                }
            }
        }
    }
}

/// Paying out part of an unsettled order, and marking it as settled, leaves over
/// what is not paid, and everything if the contract pays itself.
proof fn lemma_surplus_settle(
    ledger: LedgerView,
    order: u64,
    to: Address,
    amount: i128,
    status: EscrowStatus,
    token: Address,
)
    requires
        ledger.funded(),
        ledger.escrows.contains_key(order),
        !ledger.escrows[order].status.settled(),
        status.settled(),
    ensures
        ({
            let escrow = ledger.escrows[order];
            let after = ledger.pay(escrow.token, to, amount).mark(order, status);
            &&& after.funded()
            &&& after.surplus(token) == ledger.surplus(token) + (if escrow.token != token {
                0
            } else if to == ledger.contract {
                escrow.amount as int
            } else {
                escrow.amount - amount
            })
        }),
{
    let escrow = ledger.escrows[order];
    let transfer = Effect::Transfer { token: escrow.token, from: ledger.contract, to, amount };
    lemma_surplus_emit(ledger, transfer, token);
    lemma_surplus_put(ledger.emit(transfer), order, Escrow { status, ..escrow }, token);
}

/// Whatever is called, the transfers that the call asks for change the
/// contract's holdings of each token by as much as the unsettled escrows in that
/// token change. Where the contract pays itself, or a batch opens an order
/// twice, it is left with more; it is never left with less.
pub proof fn law_call_keeps_surplus(ledger: LedgerView, call: Call, token: Address)
    requires
        ledger.funded(),
        ledger.completes(call),
        ledger.paid_by_others(call),
    ensures
        ledger.step(call).funded(),
        ledger.step(call).contract == ledger.contract,
        ledger.step(call).surplus(token) >= ledger.surplus(token),
        ledger.pays_others(call) ==> ledger.step(call).surplus(token) == ledger.surplus(token),
{
    match call {
        Call::Wait { .. } => {},
        Call::Init { platform } => {
            lemma_surplus_emit(
                LedgerView { platform: Some(platform), ..ledger },
                Effect::Put(DataKey::Platform),
                token,
            );
        },
        Call::SetAdmin { admin } => {
            let auth = Effect::RequireAuth(admin);
            lemma_surplus_emit(ledger, auth, token);
            lemma_surplus_emit(
                LedgerView { admin: Some(admin), ..ledger.emit(auth) },
                Effect::Put(DataKey::Admin),
                token,
            );
        },
        Call::Deposit { entry } => {
            lemma_surplus_emit(ledger, Effect::RequireAuth(entry.1), token);
            if ledger.entry_error(entry) is None {
                lemma_surplus_open(ledger, entry, token);
            }
        },
        Call::BatchDeposit { entries } => {
            if ledger.batch_error(entries) is None {
                lemma_surplus_open_all(ledger, entries, token);
            }
        },
        Call::Release { order_id, platform_fee_bps } => {
            let escrow = ledger.escrows[order_id];
            let asked = ledger.emit(Effect::RequireAuth(escrow.buyer));
            lemma_surplus_emit(ledger, Effect::RequireAuth(escrow.buyer), token);
            if ledger.release_error(order_id, platform_fee_bps) is None {
                let fee = ledger.release_fee(order_id, platform_fee_bps);
                model::lemma_fee_between(escrow.amount as int, platform_fee_bps as int);
                let rest = (escrow.amount - fee) as i128;
                if fee > 0 {
                    let transfer = Effect::Transfer {
                        token: escrow.token,
                        from: ledger.contract,
                        to: ledger.platform->0,
                        amount: fee as i128,
                    };
                    lemma_surplus_emit(asked, transfer, token);
                    lemma_surplus_settle(
                        asked.emit(transfer),
                        order_id,
                        escrow.farmer,
                        rest,
                        EscrowStatus::Released,
                        token,
                    );
                } else {
                    lemma_surplus_settle(
                        asked,
                        order_id,
                        escrow.farmer,
                        rest,
                        EscrowStatus::Released,
                        token,
                    );
                }
            }
        },
        Call::Refund { order_id } => {
            let escrow = ledger.escrows[order_id];
            let asked = ledger.emit(Effect::RequireAuth(escrow.buyer));
            lemma_surplus_emit(ledger, Effect::RequireAuth(escrow.buyer), token);
            if ledger.refund_error(order_id) is None {
                lemma_surplus_settle(
                    asked,
                    order_id,
                    escrow.buyer,
                    escrow.amount,
                    EscrowStatus::Refunded,
                    token,
                );
            }
        },
        Call::Dispute { order_id, caller } => {
            let asked = ledger.emit(Effect::RequireAuth(caller));
            lemma_surplus_emit(ledger, Effect::RequireAuth(caller), token);
            if ledger.dispute_error(order_id, caller) is None {
                lemma_surplus_put(
                    asked,
                    order_id,
                    Escrow { status: EscrowStatus::Disputed, ..ledger.escrows[order_id] },
                    token,
                );
            }
        },
        Call::ResolveDispute { order_id, release_to_farmer } => {
            let escrow = ledger.escrows[order_id];
            let asked = ledger.emit(Effect::RequireAuth(ledger.admin->0));
            lemma_surplus_emit(ledger, Effect::RequireAuth(ledger.admin->0), token);
            if release_to_farmer {
                lemma_surplus_settle(
                    asked,
                    order_id,
                    escrow.farmer,
                    escrow.amount,
                    EscrowStatus::Released,
                    token,
                );
            } else {
                lemma_surplus_settle(
                    asked,
                    order_id,
                    escrow.buyer,
                    escrow.amount,
                    EscrowStatus::Refunded,
                    token,
                );
            }
        },
    }
}

/// Whatever is called, in whatever order, on a contract that starts without
/// escrows and effects: in every token, the transfers into the contract exceed
/// those out of it by at least the amounts of the escrows that are not settled,
/// so that each of them can be paid out. They exceed them by exactly that, so
/// that nothing is left over once all are, unless the contract has paid itself
/// or a batch has opened an order twice.
pub proof fn law_holds_what_it_owes(ledger: LedgerView, calls: Seq<Call>, token: Address)
    requires
        ledger.escrows == Map::<u64, Escrow>::empty(),
        ledger.effects == Seq::<Effect>::empty(),
        ledger.runs(calls),
        ledger.all_paid_by_others(calls),
    ensures
        gains(ledger.run(calls).effects, ledger.contract, token) >= owed(
            ledger.run(calls).escrows,
            token,
        ),
        ledger.all_pay_others(calls) ==> gains(
            ledger.run(calls).effects,
            ledger.contract,
            token,
        ) == owed(ledger.run(calls).escrows, token),
        forall|order: u64| #[trigger]
            ledger.run(calls).escrows.contains_key(order) ==> ledger.run(
                calls,
            ).escrows[order].amount > 0,
{
    lemma_run_keeps_surplus(ledger, calls, token);
}

proof fn lemma_run_keeps_surplus(ledger: LedgerView, calls: Seq<Call>, token: Address)
    requires
        ledger.funded(),
        ledger.runs(calls),
        ledger.all_paid_by_others(calls),
    ensures
        ledger.run(calls).funded(),
        ledger.run(calls).contract == ledger.contract,
        ledger.run(calls).surplus(token) >= ledger.surplus(token),
        ledger.all_pay_others(calls) ==> ledger.run(calls).surplus(token) == ledger.surplus(token),
    decreases calls.len(),
{
    if calls.len() > 0 {
        lemma_run_keeps_surplus(ledger, calls.drop_last(), token);
        law_call_keeps_surplus(ledger.run(calls.drop_last()), calls.last(), token);
    }
}

/// A release pays the farmer and the platform together exactly the amount of the
/// order, in the order's token.
pub proof fn law_release_pays_amount(ledger: LedgerView, order: u64, platform_fee_bps: u32)
    requires
        ledger.release(order, platform_fee_bps).1 is Ok,
        ledger.escrows[order].amount >= 0,
        ledger.escrows[order].farmer != ledger.contract,
        ledger.release_fee(order, platform_fee_bps) > 0 ==> ledger.platform != Some(
            ledger.contract,
        ),
    ensures
        ({
            let token = ledger.escrows[order].token;
            gains(ledger.release(order, platform_fee_bps).0.effects, ledger.contract, token)
                == gains(ledger.effects, ledger.contract, token) - ledger.escrows[order].amount
        }),
{
    let escrow = ledger.escrows[order];
    let fee = ledger.release_fee(order, platform_fee_bps);
    let rest = (escrow.amount - fee) as i128;
    let asked = ledger.emit(Effect::RequireAuth(escrow.buyer));
    let charged = if fee > 0 {
        asked.pay(escrow.token, ledger.platform->0, fee as i128)
    } else {
        asked
    };
    let paid = charged.pay(escrow.token, escrow.farmer, rest);
    model::lemma_fee_between(escrow.amount as int, platform_fee_bps as int);
    lemma_gains_emit(ledger, Effect::RequireAuth(escrow.buyer), escrow.token);
    lemma_gains_emit(
        asked,
        Effect::Transfer {
            token: escrow.token,
            from: ledger.contract,
            to: ledger.platform->0,
            amount: fee as i128,
        },
        escrow.token,
    );
    lemma_gains_emit(
        charged,
        Effect::Transfer {
            token: escrow.token,
            from: ledger.contract,
            to: escrow.farmer,
            amount: rest,
        },
        escrow.token,
    );
    let released = Escrow { status: EscrowStatus::Released, ..escrow };
    let written = LedgerView { escrows: paid.escrows.insert(order, released), ..paid };
    let put = Effect::Put(DataKey::Escrow(order));
    let extend = Effect::ExtendTtl {
        key: DataKey::Escrow(order),
        threshold: TTL_MIN,
        extend_to: TTL_MAX,
    };
    lemma_gains_emit(written, put, escrow.token);
    lemma_gains_emit(written.emit(put), extend, escrow.token);
}

} // verus!
