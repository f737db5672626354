//! What the library calls in `soroban_sdk`: its vectors of order numbers and of
//! deposits, and its map of balances.
//!
//! The host behind these types meters every call and stops a contract that has
//! spent its budget. That is a matter of the host's resources, not of the
//! arguments, and no contract below speaks of it.

use vstd::prelude::*;

verus! {

/// `soroban_sdk::Env`, the handle on the host in which collections live.
#[verifier::external_type_specification]
#[verifier::external_body]
pub struct ExEnv(soroban_sdk::Env);

/// `soroban_sdk::Map`, an ordered dictionary held by the host.
#[verifier::external_type_specification]
#[verifier::external_body]
#[verifier::reject_recursive_types(K)]
#[verifier::reject_recursive_types(V)]
pub struct ExMap<K, V>(soroban_sdk::Map<K, V>);

/// `soroban_sdk::Vec`, a sequence held by the host.
#[verifier::external_type_specification]
#[verifier::external_body]
#[verifier::reject_recursive_types(T)]
pub struct ExVec<T>(soroban_sdk::Vec<T>);

/// The items of a vector of order numbers: at each position the number, or
/// `None` where the host holds a value of another type.
pub uninterp spec fn order_id_slots(order_ids: soroban_sdk::Vec<u64>) -> Seq<Option<u64>>;

/// A deposit of a batch, with its parties as numbers:
/// `(order_id, buyer, farmer, token, amount, timeout_unix)`.
pub type RawEntry = (u64, u64, u64, u64, i128, u64);

/// The items of a vector of deposits: at each position the deposit, or `None`
/// where the host holds a value of another type.
pub uninterp spec fn entry_slots(entries: soroban_sdk::Vec<RawEntry>) -> Seq<Option<RawEntry>>;

/// The amounts that a map of balances holds, by the number of the address.
pub uninterp spec fn balance_entries(balances: soroban_sdk::Map<u64, i128>) -> Map<u64, i128>;

/// Whether every key that the map holds is a `u64` and every value an `i128`.
pub uninterp spec fn balances_typed(balances: soroban_sdk::Map<u64, i128>) -> bool;

/// Calls `soroban_sdk::Vec::try_get`, which looks up a position and converts the
/// value there: nothing past the end, an error where the value is no `u64`. The
/// host counts the items of a vector in a `u32`.
#[verifier::external_body]
pub(crate) fn order_id_at(order_ids: &soroban_sdk::Vec<u64>, position: u32) -> (slot: Result<
    Option<u64>,
    (),
>)
    ensures
        match slot {
            Ok(None) => position >= order_id_slots(*order_ids).len(),
            Ok(Some(order_id)) => {
                &&& position < order_id_slots(*order_ids).len() <= u32::MAX
                &&& order_id_slots(*order_ids)[position as int] == Some(order_id)
            },
            Err(_) => {
                &&& position < order_id_slots(*order_ids).len() <= u32::MAX
                &&& order_id_slots(*order_ids)[position as int] is None
            },
        },
{
    match order_ids.try_get(position) {
        Ok(found) => Ok(found),
        Err(_) => Err(()),
    }
}

/// Calls `soroban_sdk::Vec::new`, which makes an empty vector in the host of
/// `env`.
#[verifier::external_body]
pub(crate) fn entries_new(env: &soroban_sdk::Env) -> (entries: soroban_sdk::Vec<RawEntry>)
    ensures
        entry_slots(entries) == (Seq::<Option<RawEntry>>::empty()),
{
    soroban_sdk::Vec::new(env)
}

/// Calls `soroban_sdk::Vec::push_back`, which adds an item at the end. The host
/// refuses a vector of more items than a `u32` can count.
#[verifier::external_body]
pub(crate) fn entries_push(entries: &mut soroban_sdk::Vec<RawEntry>, entry: RawEntry)
    requires
        entry_slots(*old(entries)).len() < u32::MAX,
    ensures
        entry_slots(*final(entries)) == entry_slots(*old(entries)).push(Some(entry)),
{
    entries.push_back(entry);
}

/// Calls `soroban_sdk::Vec::len`, which counts the items.
#[verifier::external_body]
pub(crate) fn entries_len(entries: &soroban_sdk::Vec<RawEntry>) -> (count: u32)
    ensures
        count == entry_slots(*entries).len(),
{
    entries.len()
}

/// Calls `soroban_sdk::Vec::get`, which looks up a position and converts the
/// value there: nothing past the end. It panics on a value of another type than
/// the vector's own.
#[verifier::external_body]
pub(crate) fn entry_at(entries: &soroban_sdk::Vec<RawEntry>, position: u32) -> (entry: Option<
    RawEntry,
>)
    requires
        position < entry_slots(*entries).len() ==> entry_slots(*entries)[position as int] is Some,
    ensures
        entry == (if position < entry_slots(*entries).len() {
            entry_slots(*entries)[position as int]
        } else {
            None
        }),
{
    entries.get(position)
}

/// Calls `soroban_sdk::Map::new`, which makes an empty map in the host of `env`.
#[verifier::external_body]
pub(crate) fn balances_new(env: &soroban_sdk::Env) -> (balances: soroban_sdk::Map<u64, i128>)
    ensures
        balance_entries(balances) == (Map::<u64, i128>::empty()),
        balances_typed(balances),
{
    soroban_sdk::Map::new(env)
}

/// Calls `soroban_sdk::Map::get`, which returns the value under a key, or `None`
/// where the map has no such key. It panics on a value of another type than the
/// map's own.
#[verifier::external_body]
pub(crate) fn balance_get(balances: &soroban_sdk::Map<u64, i128>, address_id: u64) -> (amount:
    Option<i128>)
    requires
        balances_typed(*balances),
    ensures
        amount == (if balance_entries(*balances).contains_key(address_id) {
            Some(balance_entries(*balances)[address_id])
        } else {
            None
        }),
{
    balances.get(address_id)
}

/// Calls `soroban_sdk::Map::set`, which puts a value under a key, in place of the
/// one that stood there. The host refuses a map of more entries than a `u32` can
/// count.
#[verifier::external_body]
pub(crate) fn balance_set(
    balances: &mut soroban_sdk::Map<u64, i128>,
    address_id: u64,
    amount: i128,
)
    requires
        balances_typed(*old(balances)),
        balance_entries(*old(balances)).dom().finite(),
        balance_entries(*old(balances)).len() < u32::MAX,
    ensures
        balance_entries(*final(balances)) == balance_entries(*old(balances)).insert(
            address_id,
            amount,
        ),
        balances_typed(*final(balances)),
{
    balances.set(address_id, amount);
}

} // verus!
