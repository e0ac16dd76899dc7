# safe_haven

A time-locked token vault: depositors lock tokens until a timestamp or a
ledger sequence, may leave early for a penalty shared between a fee
recipient and registered stakers, and an admin can release deposits in an
emergency (always to the depositor, within a per-ledger cap) or give up the
admin role for good. Deposits may compound interest, recur on a schedule,
renew themselves, be farmed through approved protocols, and be archived once
closed; an insurance pool pays approved claims.

- `src/` is the vault itself, written in Verus: its state (`vault.rs`), every
  entry point's decisions and arithmetic, and their contracts, proved. Entry
  points take the ledger clock as a value and return the token transfers
  they decided on. `laws.rs` states the properties that span entry points.
- `tests/` runs the entry points on concrete scenarios, settling the
  returned transfers against an in-memory balance book.
- `app/` is the Soroban contract around the vault: authorisation, storage of
  the vault state, the mapping of host addresses to the vault's numeric ids,
  token transfers and events.
