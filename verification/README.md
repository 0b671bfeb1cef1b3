# novabilling

A verified recurring subscription and billing ledger. Subscribers authorise a
fixed rate and billing period; the first cycle is paid when the subscription is
created, later cycles are pulled by merchants or keepers once a whole period has
passed; a payer who cannot cover the rate becomes delinquent instead of failing
the charge; subscribers can pause and resume, and either party can cancel for
good.

Layout:

- `src/` — the ledger, written in Verus and verified:
  - `types.rs` — account identities, subscriptions, statuses, transfers;
  - `error.rs` — why an operation is refused;
  - `helper.rs` — the billing-date test;
  - `table.rs` — the key/value lists the state is kept in, and their lemmas;
  - `storage.rs` — the ledger's persistent state and its reads and writes;
  - `contract.rs` — the operations, each with an exact contract over a
    mathematical model of the state;
  - `laws.rs` — properties across operations (consistency of the state,
    permanence of cancellation, no early or double charge, and more), proved;
  - `runs.rs` — sequences of calls, and the law that a subscriber is pulled
    at most once per billing period over any of them.
- `app/` — the Soroban contract around the ledger: persistent storage, the
  ledger clock, authorisation, token calls.
- `tests/` — the billing scenarios and the ledger's rules on concrete values.
