# fluxora

Token streaming on Soroban: a sender deposits tokens that accrue to a
recipient second by second between a start and an end time (with an
optional cliff), a factory that applies a creation policy in front of the
streaming contract, and a multi-signer governance contract with quorum and
timelock.

## Layout

- `src/` — the verified library. Each contract is a plain state machine:
  an operation takes the current state, the invocation context (ledger time,
  contract address, authorizing addresses) and plain values, and returns its
  result together with the new state and the list of effects to perform
  (token transfers, events, cross-contract calls). Contracts are stated over
  spec functions and proved with Verus.
  - `accrual.rs` — the accrual formula and its properties.
  - `stream*.rs` — the streaming contract: creation, withdrawal, batches,
    pausing and cancellation, schedule changes, templates, delegated
    withdrawal, administration; `stream_laws.rs` gathers the properties that
    relate several operations.
  - `index.rs`, `address.rs`, `xdr.rs` — per-address id lists, addresses and
    their XDR encoding.
  - `factory.rs`, `governance.rs` — the factory and governance contracts.
- `tests/` — tests run against the compiled library.
- `app/` — the Soroban contracts around the library: storage, authorization
  with the host, token transfers, event publication, hashing and signature
  checks, and cross-contract calls.
