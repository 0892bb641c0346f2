# solana_vault

A Solana vault program whose logic is verified with Verus. It covers the
vault program only: the other anchor programs it was written beside (an AMM,
an escrow, a marketplace, a staking program and a dice game) forward their
instructions to account handlers and state types that are not part of the
sources at hand, so there is no logic of theirs to verify. Each user owns a
state account at the address derived from `"state"` and the user's key, and a
lamport vault at the address derived from `"vault"` and the state account.
The program can `initialize` them (in two steps: `create_state_account`,
whose actions create the state account, then `initialize` on the accounts
as they are once it exists, as anchor checks them), `deposit` into the vault, `withdraw` from
it and `close` both.

- `src/` is the verified library. Every instruction checks its accounts in
  the order anchor checks them and returns the list of actions the runtime
  performs (`vault.rs`, `instructions.rs`, `actions.rs`); the state account's
  layout is in `state.rs`; address derivation, which calls solana's `Pubkey`,
  is in `pda.rs`; the laws across instructions are proved in `laws.rs`.
- `app/` is the anchor program: it turns account infos into plain values,
  calls the library and performs the actions with system program calls.
- `tests/` runs the instructions against a small in-memory ledger.
