# task_manager_pro

A verified model of the TaskManager Pro task-escrow contract: tasks with
escrowed rewards and milestones, reputation, profiles, reputation-weighted
governance, an admin multisig, per-action pauses, a multi-token vault with
Merkle payroll, a deposit swap router, a decaying vesting treasury,
timelocked upgrades, milestone vesting vaults, a TWAP oracle and
zero-knowledge identity attestations.

Every entry point is a state transition with a contract proved by Verus:
each states when it succeeds, which error it returns otherwise (leaving the
state untouched), and exactly what it changes. Token movements are returned
as `Transfer` values for the host to perform; addresses are account numbers.

Layout:

- `src/` — the verified library. `src/laws.rs` holds the properties that
  span several calls or every state.
- `tests/` — scenarios on concrete values.
- `app/` — the host shell (not verified): ledger storage and TTLs, events,
  address numbering, the oracle and pool calls of a deposit conversion, and
  the encoding of payroll claim leaves.

State model: the ledger keeps the contract's records in host storage as
host `Vec`/`Map` objects, which are handles valid only inside one host
invocation, and reading or writing them is ledger I/O. The library
therefore models the stored records as plain values (std `Vec` and
`HashMap` fields of the state structs, addresses and symbols as numbers);
`app/` reads and writes the ledger.
