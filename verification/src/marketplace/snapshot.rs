use vstd::prelude::*;

use crate::address::Address;
use crate::host;

verus! {

/// The locked balances at one moment.
pub struct SnapshotRecord {
    /// The sequence number of the ledger at which the snapshot was taken.
    ledger_sequence: u32,
    /// The locked amount of each address, by the number of the address.
    balances: soroban_sdk::Map<u64, i128>,
}

/// A snapshot: the ledger's sequence number, and the locked amounts by the
/// number of the address.
#[verifier::ext_equal]
pub struct SnapshotView {
    pub ledger_sequence: u32,
    pub balances: Map<u64, i128>,
}

impl SnapshotView {
    /// The amount of an address: nothing where the snapshot does not list it.
    pub open spec fn balance_of(self, address: Address) -> i128 {
        if self.balances.contains_key(address.id) {
            self.balances[address.id]
        } else {
            0
        }
    }
}

/// The balances that a list of addresses and amounts describes. Where an address
/// occurs twice, its last amount counts.
pub open spec fn listed_balances(entries: Seq<(Address, i128)>) -> Map<u64, i128>
    decreases entries.len(),
{
    if entries.len() == 0 {
        Map::empty()
    } else {
        listed_balances(entries.drop_last()).insert(entries.last().0.id, entries.last().1)
    }
}

impl View for SnapshotRecord {
    type V = SnapshotView;

    closed spec fn view(&self) -> SnapshotView {
        SnapshotView {
            ledger_sequence: self.ledger_sequence,
            balances: host::balance_entries(self.balances),
        }
    }
}

impl SnapshotRecord {
    #[verifier::type_invariant]
    spec fn typed(self) -> bool {
        host::balances_typed(self.balances)
    }

    /// A snapshot of balances that have been gathered.
    pub(crate) fn new(ledger_sequence: u32, balances: soroban_sdk::Map<u64, i128>) -> (record:
        SnapshotRecord)
        requires
            host::balances_typed(balances),
        ensures
            record@ == (SnapshotView {
                ledger_sequence,
                balances: host::balance_entries(balances),
            }),
    {
        SnapshotRecord { ledger_sequence, balances }
    }

    /// A snapshot with the given balances, as it is read back from storage.
    pub fn from_entries(
        env: &soroban_sdk::Env,
        ledger_sequence: u32,
        entries: &Vec<(Address, i128)>,
    ) -> (record: SnapshotRecord)
        requires
            entries.len() <= u32::MAX,
        ensures
            record@ == (SnapshotView { ledger_sequence, balances: listed_balances(entries@) }),
    {
        let mut balances = host::balances_new(env);
        let mut i: usize = 0;
        assert(entries@.take(0) =~= Seq::empty());
        while i < entries.len()
            invariant
                i <= entries.len() <= u32::MAX,
                host::balances_typed(balances),
                host::balance_entries(balances) == listed_balances(entries@.take(i as int)),
                host::balance_entries(balances).dom().finite(),
                host::balance_entries(balances).len() <= i,
            decreases entries.len() - i,
        {
            let (address, amount) = entries[i];
            assert(entries@.take(i + 1).drop_last() =~= entries@.take(i as int));
            host::balance_set(&mut balances, address.id, amount);
            i = i + 1;
        }
        assert(entries@.take(i as int) =~= entries@);
        SnapshotRecord { ledger_sequence, balances }
    }

    /// The sequence number of the ledger at which the snapshot was taken.
    pub fn ledger_sequence(&self) -> (ledger_sequence: u32)
        ensures
            ledger_sequence == self@.ledger_sequence,
    {
        self.ledger_sequence
    }

    /// The locked amounts, by the number of the address.
    pub fn balances(&self) -> (balances: &soroban_sdk::Map<u64, i128>)
        ensures
            host::balance_entries(*balances) == self@.balances,
    {
        &self.balances
    }

    /// The locked amount of an address.
    pub fn balance_of(&self, address: Address) -> (amount: i128)
        ensures
            amount == self@.balance_of(address),
    {
        proof {
            use_type_invariant(self);
        }
        match host::balance_get(&self.balances, address.id) {
            Some(amount) => amount,
            None => 0,
        }
    }
}

} // verus!
