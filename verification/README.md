# farmers_escrow

The escrow contracts of a farmers' marketplace on Soroban, with their rules proved
in Verus.

- `src/marketplace` keeps a record of every order, publishes events and takes
  snapshots of the locked balances.
- `src/escrow` moves tokens: deposits (single and in batches), releases with a
  platform fee, refunds after a timeout, and disputes.
- `src/host.rs` holds the calls into `soroban_sdk`, with what is taken for granted
  of each.
- `app` puts the two contracts on a host: it fills a `Ledger` value from storage,
  calls the library and carries out the effects that come back.

In both contracts, `model.rs` says what each call does on a mathematical ledger,
`contract.rs` does it, `calls.rs` speaks of sequences of calls, and `laws.rs` (with
`solvency.rs`) proves what holds of the contract as a whole.
