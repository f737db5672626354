use vstd::prelude::*;

use crate::address::Address;
use crate::escrow::types::BatchEntry;
use crate::host;

verus! {

/// A batch of deposits, in a vector of the host.
pub struct Batch {
    entries: soroban_sdk::Vec<host::RawEntry>,
}

/// A deposit with its parties as numbers.
spec fn raw_of(entry: BatchEntry) -> host::RawEntry {
    (entry.0, entry.1.id, entry.2.id, entry.3.id, entry.4, entry.5)
}

/// The deposit that a tuple of numbers stands for.
spec fn entry_of(raw: host::RawEntry) -> BatchEntry {
    (
        raw.0,
        Address { id: raw.1 },
        Address { id: raw.2 },
        Address { id: raw.3 },
        raw.4,
        raw.5,
    )
}

impl View for Batch {
    type V = Seq<BatchEntry>;

    closed spec fn view(&self) -> Seq<BatchEntry> {
        host::entry_slots(self.entries).map_values(
            |slot: Option<host::RawEntry>| entry_of(slot->0),
        )
    }
}

impl Batch {
    #[verifier::type_invariant]
    spec fn typed(self) -> bool {
        forall|i: int|
            0 <= i < host::entry_slots(self.entries).len() ==> (#[trigger] host::entry_slots(
                self.entries,
            )[i]) is Some
    }

    /// The batch of the listed deposits.
    pub fn from_entries(env: &soroban_sdk::Env, entries: &Vec<BatchEntry>) -> (batch: Batch)
        requires
            entries.len() <= u32::MAX,
        ensures
            batch@ == entries@,
    {
        let mut raw = host::entries_new(env);
        let mut i: usize = 0;
        while i < entries.len()
            invariant
                i <= entries.len() <= u32::MAX,
                host::entry_slots(raw).len() == i,
                forall|j: int|
                    0 <= j < i ==> (#[trigger] host::entry_slots(raw)[j]) == Some(
                        raw_of(entries@[j]),
                    ),
            decreases entries.len() - i,
        {
            let (order_id, buyer, farmer, token, amount, timeout_unix) = entries[i];
            host::entries_push(
                &mut raw,
                (order_id, buyer.id, farmer.id, token.id, amount, timeout_unix),
            );
            i = i + 1;
        }
        let batch = Batch { entries: raw };
        assert(batch@ =~= entries@);
        batch
    }

    /// The number of deposits.
    pub fn len(&self) -> (count: u32)
        ensures
            count == self@.len(),
    {
        host::entries_len(&self.entries)
    }

    /// The deposit at a position.
    pub fn get(&self, position: u32) -> (entry: BatchEntry)
        requires
            position < self@.len(),
        ensures
            entry == self@[position as int],
    {
        proof {
            use_type_invariant(self);
        }
        let (order_id, buyer, farmer, token, amount, timeout_unix) = host::entry_at(
            &self.entries,
            position,
        ).unwrap();
        (
            order_id,
            Address { id: buyer },
            Address { id: farmer },
            Address { id: token },
            amount,
            timeout_unix,
        )
    }
}

} // verus!
