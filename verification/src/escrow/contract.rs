use std::collections::BTreeMap;

use vstd::prelude::*;

use crate::address::Address;
use crate::escrow::batch::Batch;
use crate::escrow::model::{fee_fits, fee_of, lemma_fee_between, lemma_first_error, LedgerView};
use crate::escrow::types::{
    DataKey, Effect, Escrow, EscrowError, EscrowStatus, BPS_SCALE, MAX_FEE_BPS, TTL_MAX,
    TTL_MIN,
};

verus! {

/// What the contract reads of the ledger during a call, and what it asks of the
/// host in return.
///
/// `escrows` holds the records of the orders that the call names, as storage has
/// them. A call changes it the way storage is to be changed, and lists the
/// changes among `effects`.
pub struct Ledger {
    pub timestamp: u64,
    pub contract: Address,
    pub admin: Option<Address>,
    pub platform: Option<Address>,
    pub escrows: BTreeMap<u64, Escrow>,
    pub effects: Vec<Effect>,
}

impl View for Ledger {
    type V = LedgerView;

    open spec fn view(&self) -> LedgerView {
        LedgerView {
            timestamp: self.timestamp,
            contract: self.contract,
            admin: self.admin,
            platform: self.platform,
            escrows: self.escrows@,
            effects: self.effects@,
        }
    }
}

impl Ledger {
    /// A ledger without entries, at a given time, for the contract at a given
    /// address.
    pub fn new(timestamp: u64, contract: Address) -> (ledger: Ledger)
        ensures
            ledger@ == (LedgerView {
                timestamp,
                contract,
                admin: None,
                platform: None,
                escrows: Map::empty(),
                effects: Seq::empty(),
            }),
    {
        Ledger {
            timestamp,
            contract,
            admin: None,
            platform: None,
            escrows: BTreeMap::new(),
            effects: Vec::new(),
        }
    }

    /// Adds an effect.
    fn emit(&mut self, effect: Effect)
        ensures
            final(self)@ == old(self)@.emit(effect),
    {
        self.effects.push(effect);
    }

    /// Asks for a transfer out of the contract.
    fn pay(&mut self, token: Address, to: Address, amount: i128)
        ensures
            final(self)@ == old(self)@.pay(token, to, amount),
    {
        let from = self.contract;
        self.emit(Effect::Transfer { token, from, to, amount });
    }

    /// Writes a record and extends its lifetime.
    fn put_escrow(&mut self, order_id: u64, escrow: Escrow)
        ensures
            final(self)@ == old(self)@.put_escrow(order_id, escrow),
    {
        self.escrows.insert(order_id, escrow);
        self.emit(Effect::Put(DataKey::Escrow(order_id)));
        self.emit(
            Effect::ExtendTtl {
                key: DataKey::Escrow(order_id),
                threshold: TTL_MIN,
                extend_to: TTL_MAX,
            },
        );
    }

    /// Asks for the payment of a new escrow, and writes it.
    fn receive(&mut self, order_id: u64, escrow: Escrow)
        ensures
            final(self)@ == old(self)@.emit(
                Effect::Transfer {
                    token: escrow.token,
                    from: escrow.buyer,
                    to: old(self).contract,
                    amount: escrow.amount,
                },
            ).put_escrow(order_id, escrow),
    {
        let to = self.contract;
        self.emit(
            Effect::Transfer {
                token: escrow.token,
                from: escrow.buyer,
                to,
                amount: escrow.amount,
            },
        );
        self.put_escrow(order_id, escrow);
    }
}

/// The contract.
pub struct EscrowContract;

impl EscrowContract {
    /// Registers the platform fee recipient.
    pub fn init(ledger: &mut Ledger, platform_address: Address)
        ensures
            final(ledger)@ == old(ledger)@.init(platform_address),
    {
        ledger.platform = Some(platform_address);
        ledger.emit(Effect::Put(DataKey::Platform));
    }

    /// Deposits funds into escrow for `order_id`, in any token.
    pub fn deposit(
        ledger: &mut Ledger,
        token: Address,
        order_id: u64,
        buyer: Address,
        farmer: Address,
        amount: i128,
        timeout_unix: u64,
    ) -> (result: Result<(), EscrowError>)
        ensures
            (final(ledger)@, result) == old(ledger)@.deposit(
                (order_id, buyer, farmer, token, amount, timeout_unix),
            ),
    {
        ledger.emit(Effect::RequireAuth(buyer));
        if amount <= 0 {
            return Err(EscrowError::InvalidAmount);
        }
        if ledger.escrows.contains_key(&order_id) {
            return Err(EscrowError::AlreadyExists);
        }
        let escrow = Escrow {
            buyer,
            farmer,
            token,
            amount,
            timeout_unix,
            status: EscrowStatus::Active,
        };
        ledger.receive(order_id, escrow);
        Ok(())
    }

    /// Creates several escrows in one call. All entries are checked before
    /// anything is written; if one is invalid, the entire batch is rejected.
    pub fn batch_deposit(ledger: &mut Ledger, entries: &Batch) -> (result: Result<(), EscrowError>)
        ensures
            (final(ledger)@, result) == old(ledger)@.batch_deposit(entries@),
    {
        let count: u32 = entries.len();
        let mut i: u32 = 0;
        while i < count
            invariant
                i <= count == entries@.len(),
                *ledger == *old(ledger),
                ledger@.batch_error(entries@.take(i as int)) is None,
            decreases count - i,
        {
            let (order_id, _buyer, _farmer, _token, amount, _timeout_unix) = entries.get(i);
            assert(entries@.take(i + 1).drop_last() =~= entries@.take(i as int));
            if amount <= 0 || ledger.escrows.contains_key(&order_id) {
                proof {
                    lemma_first_error(ledger@, entries@, i as int);
                }
                return if amount <= 0 {
                    Err(EscrowError::InvalidAmount)
                } else {
                    Err(EscrowError::AlreadyExists)
                };
            }
            i = i + 1;
        }
        assert(entries@.take(i as int) =~= entries@);

        let mut j: u32 = 0;
        assert(entries@.take(0) =~= Seq::empty());
        while j < count
            invariant
                j <= count == entries@.len(),
                ledger@ == old(ledger)@.open_all(entries@.take(j as int)),
            decreases count - j,
        {
            let (order_id, buyer, farmer, token, amount, timeout_unix) = entries.get(j);
            assert(entries@.take(j + 1).drop_last() =~= entries@.take(j as int));
            ledger.emit(Effect::RequireAuth(buyer));
            let escrow = Escrow {
                buyer,
                farmer,
                token,
                amount,
                timeout_unix,
                status: EscrowStatus::Active,
            };
            ledger.receive(order_id, escrow);
            j = j + 1;
        }
        assert(entries@.take(j as int) =~= entries@);
        Ok(())
    }

    /// The platform's share of an amount, in basis points, rounded towards zero.
    pub fn platform_fee(amount: i128, platform_fee_bps: u32) -> (fee: i128)
        requires
            fee_fits(amount as int, platform_fee_bps as int),
        ensures
            fee == fee_of(amount as int, platform_fee_bps as int),
    {
        (amount * platform_fee_bps as i128) / BPS_SCALE
    }

    /// Whether the fee of a release can be computed without overflow.
    pub fn release_fits(ledger: &Ledger, order_id: u64, platform_fee_bps: u32) -> (fits: bool)
        ensures
            fits == ledger@.release_fits(order_id, platform_fee_bps),
    {
        if platform_fee_bps > MAX_FEE_BPS {
            return true;
        }
        match ledger.escrows.get(&order_id) {
            Some(escrow) => match escrow.status {
                EscrowStatus::Active => {
                    let bps: i128 = platform_fee_bps as i128;
                    escrow.amount.checked_mul(bps).is_some()
                },
                _ => true,
            },
            None => true,
        }
    }

    /// Releases funds to the farmer, deducting a platform fee of at most a tenth.
    pub fn release(ledger: &mut Ledger, order_id: u64, platform_fee_bps: u32) -> (result: Result<
        (),
        EscrowError,
    >)
        requires
            old(ledger)@.release_fits(order_id, platform_fee_bps),
        ensures
            (final(ledger)@, result) == old(ledger)@.release(order_id, platform_fee_bps),
    {
        if platform_fee_bps > MAX_FEE_BPS {
            return Err(EscrowError::InvalidAmount);
        }
        let mut escrow = match ledger.escrows.get(&order_id) {
            Some(escrow) => *escrow,
            None => return Err(EscrowError::NotFound),
        };
        ledger.emit(Effect::RequireAuth(escrow.buyer));
        match escrow.status {
            EscrowStatus::Released | EscrowStatus::Refunded => {
                return Err(EscrowError::AlreadySettled);
            },
            EscrowStatus::Disputed => {
                return Err(EscrowError::InDispute);
            },
            EscrowStatus::Active => {},
        }
        let fee_amount: i128 = Self::platform_fee(escrow.amount, platform_fee_bps);
        proof {
            lemma_fee_between(escrow.amount as int, platform_fee_bps as int);
        }
        let farmer_amount: i128 = escrow.amount - fee_amount;
        if fee_amount > 0 {
            let platform = match ledger.platform {
                Some(platform) => platform,
                None => return Err(EscrowError::NotFound),
            };
            ledger.pay(escrow.token, platform, fee_amount);
        }
        ledger.pay(escrow.token, escrow.farmer, farmer_amount);
        escrow.status = EscrowStatus::Released;
        ledger.put_escrow(order_id, escrow);
        Ok(())
    }

    /// Names the administrator, once.
    pub fn set_admin(ledger: &mut Ledger, admin: Address)
        requires
            old(ledger).admin is None,
        ensures
            final(ledger)@ == old(ledger)@.set_admin(admin),
    {
        ledger.emit(Effect::RequireAuth(admin));
        ledger.admin = Some(admin);
        ledger.emit(Effect::Put(DataKey::Admin));
    }

    /// Refunds the buyer once the timeout is reached.
    pub fn refund(ledger: &mut Ledger, order_id: u64) -> (result: Result<(), EscrowError>)
        ensures
            (final(ledger)@, result) == old(ledger)@.refund(order_id),
    {
        let mut escrow = match ledger.escrows.get(&order_id) {
            Some(escrow) => *escrow,
            None => return Err(EscrowError::NotFound),
        };
        ledger.emit(Effect::RequireAuth(escrow.buyer));
        match escrow.status {
            EscrowStatus::Released | EscrowStatus::Refunded => {
                return Err(EscrowError::AlreadySettled);
            },
            _ => {},
        }
        if ledger.timestamp < escrow.timeout_unix {
            return Err(EscrowError::TimeoutNotReached);
        }
        ledger.pay(escrow.token, escrow.buyer, escrow.amount);
        escrow.status = EscrowStatus::Refunded;
        ledger.put_escrow(order_id, escrow);
        Ok(())
    }

    /// Puts an escrow in dispute, at the request of its buyer or its farmer.
    pub fn dispute(ledger: &mut Ledger, order_id: u64, caller: Address) -> (result: Result<
        (),
        EscrowError,
    >)
        ensures
            (final(ledger)@, result) == old(ledger)@.dispute(order_id, caller),
    {
        ledger.emit(Effect::RequireAuth(caller));
        let mut escrow = match ledger.escrows.get(&order_id) {
            Some(escrow) => *escrow,
            None => return Err(EscrowError::NotFound),
        };
        if caller != escrow.buyer && caller != escrow.farmer {
            return Err(EscrowError::Unauthorized);
        }
        match escrow.status {
            EscrowStatus::Released | EscrowStatus::Refunded => {
                return Err(EscrowError::AlreadySettled);
            },
            _ => {},
        }
        escrow.status = EscrowStatus::Disputed;
        ledger.put_escrow(order_id, escrow);
        Ok(())
    }

    /// Settles a disputed escrow, by decision of the administrator: the whole
    /// amount goes to the farmer, or back to the buyer.
    pub fn resolve_dispute(ledger: &mut Ledger, order_id: u64, release_to_farmer: bool)
        requires
            old(ledger)@.resolvable(order_id),
        ensures
            final(ledger)@ == old(ledger)@.resolve_dispute(order_id, release_to_farmer),
    {
        if let Some(admin) = ledger.admin {
            ledger.emit(Effect::RequireAuth(admin));
        }
        if let Some(stored) = ledger.escrows.get(&order_id) {
            let mut escrow = *stored;
            if release_to_farmer {
                ledger.pay(escrow.token, escrow.farmer, escrow.amount);
                escrow.status = EscrowStatus::Released;
            } else {
                ledger.pay(escrow.token, escrow.buyer, escrow.amount);
                escrow.status = EscrowStatus::Refunded;
            }
            ledger.put_escrow(order_id, escrow);
        }
    }

    /// The record of an order.
    pub fn get(ledger: &Ledger, order_id: u64) -> (result: Result<Escrow, EscrowError>)
        ensures
            result == (match ledger@.get_escrow(order_id) {
                Some(escrow) => Ok(escrow),
                None => Err(EscrowError::NotFound),
            }),
    {
        match ledger.escrows.get(&order_id) {
            Some(escrow) => Ok(*escrow),
            None => Err(EscrowError::NotFound),
        }
    }

    /// The record of an order, or `None` if there is no such order.
    pub fn get_escrow(ledger: &Ledger, order_id: u64) -> (result: Option<Escrow>)
        ensures
            result == ledger@.get_escrow(order_id),
    {
        match ledger.escrows.get(&order_id) {
            Some(escrow) => Some(*escrow),
            None => None,
        }
    }
}

} // verus!
