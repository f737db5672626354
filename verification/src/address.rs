use vstd::prelude::*;

verus! {

/// An account or a contract on the ledger, known by a number.
///
/// Two addresses are the same party exactly when their numbers are equal.
/// Whoever fills a `Ledger` numbers the parties, and finds them again by it.
#[derive(Clone, Copy, Debug, PartialEq, Eq, Hash, Structural)]
pub struct Address {
    pub id: u64,
}

} // verus!
