# escrow

An invoice escrow: investors fund a tokenized invoice up to its target, the
SME repays principal plus yield (possibly in parts), and each investor then
claims its principal plus yield once.

- `src/` is the verified library. `model.rs` states each operation as a
  transition of a mathematical model (`EscrowModel`) and the invariant every
  reachable state keeps; `escrow.rs` holds `LiquifactEscrow`, whose methods are
  proved to follow those transitions exactly and to leave the state unchanged
  when they refuse a call; `laws.rs` proves the properties that span calls
  (contributions sum to the funded amount, the status only advances, the
  funding snapshot is fixed once taken, a claim pays once); `arith.rs` holds
  the checked interest arithmetic and the yield-tier rules; `persist.rs`
  validates a stored state before it is used again.
- `app/` is the Soroban contract around the library: ledger storage,
  authorization, the ledger clock and events.
- `tests/` exercises the library on concrete values.
