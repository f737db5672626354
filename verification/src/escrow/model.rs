//! What each call of the contract does, on a mathematical ledger.

use vstd::prelude::*;

use crate::address::Address;
use crate::escrow::types::{
    BatchEntry, DataKey, Effect, Escrow, EscrowError, EscrowStatus, BPS_SCALE, MAX_FEE_BPS, TTL_MAX,
    TTL_MIN,
};

verus! {

/// What the contract sees of the ledger, and the effects that it has asked for.
#[verifier::ext_equal]
pub struct LedgerView {
    pub timestamp: u64,
    pub contract: Address,
    pub admin: Option<Address>,
    pub platform: Option<Address>,
    pub escrows: Map<u64, Escrow>,
    pub effects: Seq<Effect>,
}

/// `bps` basis points of the amount, rounded towards zero.
pub open spec fn fee_of(amount: int, bps: int) -> int {
    if amount * bps >= 0 {
        amount * bps / BPS_SCALE as int
    } else {
        -(-(amount * bps) / BPS_SCALE as int)
    }
}

/// Whether the product behind the fee fits in an `i128`.
pub open spec fn fee_fits(amount: int, bps: int) -> bool {
    i128::MIN <= amount * bps <= i128::MAX
}

/// The record that an entry of a batch opens.
pub open spec fn entry_escrow(entry: BatchEntry) -> Escrow {
    Escrow {
        buyer: entry.1,
        farmer: entry.2,
        token: entry.3,
        amount: entry.4,
        timeout_unix: entry.5,
        status: EscrowStatus::Active,
    }
}

impl LedgerView {
    /// The ledger with one more effect.
    pub open spec fn emit(self, effect: Effect) -> LedgerView {
        LedgerView { effects: self.effects.push(effect), ..self }
    }

    /// The ledger with a record written and its lifetime extended.
    pub open spec fn put_escrow(self, order_id: u64, escrow: Escrow) -> LedgerView {
        LedgerView { escrows: self.escrows.insert(order_id, escrow), ..self }.emit(
            Effect::Put(DataKey::Escrow(order_id)),
        ).emit(
            Effect::ExtendTtl {
                key: DataKey::Escrow(order_id),
                threshold: TTL_MIN,
                extend_to: TTL_MAX,
            },
        )
    }

    /// The ledger after the contract has paid out an amount.
    pub open spec fn pay(self, token: Address, to: Address, amount: i128) -> LedgerView {
        self.emit(Effect::Transfer { token, from: self.contract, to, amount })
    }

    /// The ledger after an entry has been paid in and written, in the name of its
    /// buyer.
    pub open spec fn open_entry(self, entry: BatchEntry) -> LedgerView {
        let escrow = entry_escrow(entry);
        self.emit(Effect::RequireAuth(escrow.buyer)).emit(
            Effect::Transfer {
                token: escrow.token,
                from: escrow.buyer,
                to: self.contract,
                amount: escrow.amount,
            },
        ).put_escrow(entry.0, escrow)
    }

    /// The ledger with the status of an order changed.
    pub open spec fn mark(self, order_id: u64, status: EscrowStatus) -> LedgerView {
        self.put_escrow(order_id, Escrow { status, ..self.escrows[order_id] })
    }

    /// Registers the recipient of platform fees.
    pub open spec fn init(self, platform: Address) -> LedgerView {
        LedgerView { platform: Some(platform), ..self }.emit(Effect::Put(DataKey::Platform))
    }

    /// Why an entry cannot be opened: its amount is not positive, or its order
    /// number is taken.
    pub open spec fn entry_error(self, entry: BatchEntry) -> Option<EscrowError> {
        if entry.4 <= 0 {
            Some(EscrowError::InvalidAmount)
        } else if self.escrows.contains_key(entry.0) {
            Some(EscrowError::AlreadyExists)
        } else {
            None
        }
    }

    /// Opens one escrow.
    pub open spec fn deposit(self, entry: BatchEntry) -> (LedgerView, Result<(), EscrowError>) {
        match self.entry_error(entry) {
            Some(error) => (self.emit(Effect::RequireAuth(entry.1)), Err(error)),
            None => (self.open_entry(entry), Ok(())),
        }
    }

    /// The error of the first entry of a batch that has one.
    pub open spec fn batch_error(self, entries: Seq<BatchEntry>) -> Option<EscrowError>
        decreases entries.len(),
    {
        if entries.len() == 0 {
            None
        } else if self.batch_error(entries.drop_last()) is Some {
            self.batch_error(entries.drop_last())
        } else {
            self.entry_error(entries.last())
        }
    }

    /// The ledger after every entry of a batch has been opened, in order.
    pub open spec fn open_all(self, entries: Seq<BatchEntry>) -> LedgerView
        decreases entries.len(),
    {
        if entries.len() == 0 {
            self
        } else {
            self.open_all(entries.drop_last()).open_entry(entries.last())
        }
    }

    /// Opens all escrows of a batch, or none.
    pub open spec fn batch_deposit(self, entries: Seq<BatchEntry>) -> (LedgerView, Result<
        (),
        EscrowError,
    >) {
        match self.batch_error(entries) {
            Some(error) => (self, Err(error)),
            None => (self.open_all(entries), Ok(())),
        }
    }

    /// Whether a release of the order gets as far as computing the fee.
    pub open spec fn release_computes_fee(self, order_id: u64, platform_fee_bps: u32) -> bool {
        &&& platform_fee_bps <= MAX_FEE_BPS
        &&& self.escrows.contains_key(order_id)
        &&& self.escrows[order_id].status is Active
    }

    /// Whether a release of the order stays within the range of an `i128`.
    pub open spec fn release_fits(self, order_id: u64, platform_fee_bps: u32) -> bool {
        self.release_computes_fee(order_id, platform_fee_bps) ==> fee_fits(
            self.escrows[order_id].amount as int,
            platform_fee_bps as int,
        )
    }

    /// The fee that a release of the order deducts.
    pub open spec fn release_fee(self, order_id: u64, platform_fee_bps: u32) -> int {
        fee_of(self.escrows[order_id].amount as int, platform_fee_bps as int)
    }

    /// Why the order cannot be released at this fee.
    pub open spec fn release_error(self, order_id: u64, platform_fee_bps: u32) -> Option<
        EscrowError,
    > {
        if platform_fee_bps > MAX_FEE_BPS {
            Some(EscrowError::InvalidAmount)
        } else if !self.escrows.contains_key(order_id) {
            Some(EscrowError::NotFound)
        } else if self.escrows[order_id].status.settled() {
            Some(EscrowError::AlreadySettled)
        } else if self.escrows[order_id].status is Disputed {
            Some(EscrowError::InDispute)
        } else if self.release_fee(order_id, platform_fee_bps) > 0 && self.platform is None {
            Some(EscrowError::NotFound)
        } else {
            None
        }
    }

    /// Pays the farmer of an active order, less the fee of the platform.
    pub open spec fn release(self, order_id: u64, platform_fee_bps: u32) -> (LedgerView, Result<
        (),
        EscrowError,
    >) {
        let escrow = self.escrows[order_id];
        let fee = self.release_fee(order_id, platform_fee_bps);
        let asked = if platform_fee_bps <= MAX_FEE_BPS && self.escrows.contains_key(order_id) {
            self.emit(Effect::RequireAuth(escrow.buyer))
        } else {
            self
        };
        let charged = if fee > 0 {
            asked.pay(escrow.token, self.platform->0, fee as i128)
        } else {
            asked
        };
        match self.release_error(order_id, platform_fee_bps) {
            Some(error) => (asked, Err(error)),
            None => (
                charged.pay(escrow.token, escrow.farmer, (escrow.amount - fee) as i128).mark(
                    order_id,
                    EscrowStatus::Released,
                ),
                Ok(()),
            ),
        }
    }

    /// Names the administrator.
    pub open spec fn set_admin(self, admin: Address) -> LedgerView {
        LedgerView { admin: Some(admin), ..self.emit(Effect::RequireAuth(admin)) }.emit(
            Effect::Put(DataKey::Admin),
        )
    }

    /// Why the order cannot be refunded now.
    pub open spec fn refund_error(self, order_id: u64) -> Option<EscrowError> {
        if !self.escrows.contains_key(order_id) {
            Some(EscrowError::NotFound)
        } else if self.escrows[order_id].status.settled() {
            Some(EscrowError::AlreadySettled)
        } else if self.timestamp < self.escrows[order_id].timeout_unix {
            Some(EscrowError::TimeoutNotReached)
        } else {
            None
        }
    }

    /// Pays the buyer of an unsettled order back, once its timeout is reached.
    pub open spec fn refund(self, order_id: u64) -> (LedgerView, Result<(), EscrowError>) {
        let escrow = self.escrows[order_id];
        let asked = if self.escrows.contains_key(order_id) {
            self.emit(Effect::RequireAuth(escrow.buyer))
        } else {
            self
        };
        match self.refund_error(order_id) {
            Some(error) => (asked, Err(error)),
            None => (
                asked.pay(escrow.token, escrow.buyer, escrow.amount).mark(
                    order_id,
                    EscrowStatus::Refunded,
                ),
                Ok(()),
            ),
        }
    }

    /// Why the caller cannot raise a dispute about the order.
    pub open spec fn dispute_error(self, order_id: u64, caller: Address) -> Option<EscrowError> {
        if !self.escrows.contains_key(order_id) {
            Some(EscrowError::NotFound)
        } else if caller != self.escrows[order_id].buyer && caller
            != self.escrows[order_id].farmer {
            Some(EscrowError::Unauthorized)
        } else if self.escrows[order_id].status.settled() {
            Some(EscrowError::AlreadySettled)
        } else {
            None
        }
    }

    /// Puts an unsettled order in dispute.
    pub open spec fn dispute(self, order_id: u64, caller: Address) -> (LedgerView, Result<
        (),
        EscrowError,
    >) {
        let asked = self.emit(Effect::RequireAuth(caller));
        match self.dispute_error(order_id, caller) {
            Some(error) => (asked, Err(error)),
            None => (asked.mark(order_id, EscrowStatus::Disputed), Ok(())),
        }
    }

    /// Whether there is a dispute about the order, and someone to resolve it.
    pub open spec fn resolvable(self, order_id: u64) -> bool {
        &&& self.admin is Some
        &&& self.escrows.contains_key(order_id)
        &&& self.escrows[order_id].status is Disputed
    }

    /// Settles a disputed order, with the whole amount to one side.
    pub open spec fn resolve_dispute(self, order_id: u64, release_to_farmer: bool) -> LedgerView {
        let escrow = self.escrows[order_id];
        let asked = self.emit(Effect::RequireAuth(self.admin->0));
        if release_to_farmer {
            asked.pay(escrow.token, escrow.farmer, escrow.amount).mark(
                order_id,
                EscrowStatus::Released,
            )
        } else {
            asked.pay(escrow.token, escrow.buyer, escrow.amount).mark(
                order_id,
                EscrowStatus::Refunded,
            )
        }
    }

    /// The record of an order.
    pub open spec fn get_escrow(self, order_id: u64) -> Option<Escrow> {
        if self.escrows.contains_key(order_id) {
            Some(self.escrows[order_id])
        } else {
            None
        }
    }
}

/// A fee of at most a tenth lies between nothing and the whole amount.
pub proof fn lemma_fee_between(amount: int, bps: int)
    requires
        0 <= bps <= MAX_FEE_BPS,
    ensures
        amount >= 0 ==> 0 <= fee_of(amount, bps) <= amount,
        amount <= 0 ==> amount <= fee_of(amount, bps) <= 0,
{
    let product = amount * bps;
    if amount >= 0 {
        assert(0 <= product <= amount * 1000) by (nonlinear_arith)
            requires
                0 <= amount,
                0 <= bps <= 1000,
                product == amount * bps,
        ;
    } else {
        assert(amount * 1000 <= product <= 0) by (nonlinear_arith)
            requires
                amount <= 0,
                0 <= bps <= 1000,
                product == amount * bps,
        ;
    }
}

/// A batch is refused for its first faulty entry.
pub proof fn lemma_first_error(ledger: LedgerView, entries: Seq<BatchEntry>, i: int)
    requires
        0 <= i < entries.len(),
        ledger.batch_error(entries.take(i)) is None,
        ledger.entry_error(entries[i]) is Some,
    ensures
        ledger.batch_error(entries) == ledger.entry_error(entries[i]),
    decreases entries.len(),
{
    if i == entries.len() - 1 {
        assert(entries.drop_last() =~= entries.take(i));
    } else {
        assert(entries.drop_last().take(i) =~= entries.take(i));
        lemma_first_error(ledger, entries.drop_last(), i);
    }
}

} // verus!
