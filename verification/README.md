# epplex

The account rules and instruction plans of the epplex Solana programs
(ephemeral tokens, the burger game, the core minter), verified with Verus.

- `src/` is the verified library. Each instruction of the programs is a
  struct of the accounts it reads, as plain values, with `check_constraints`
  (the `constraint = ..` rules on its accounts), `validate` and `actuate`.
  `actuate` returns a `run::Run`: the instruction's actions in order, which the
  caller performs one by one, reporting each outcome; the run stops at the
  first failure. `run::law_run_stops_at_first_failure` states and proves that
  behaviour for every plan.
- `src/token22.rs`, `src/pda.rs` and the address functions in `src/key.rs`
  are the only calls into outside crates (spl-token-2022, its metadata
  interface, solana-program); their contracts are trusted.
- `app/` is the glue to the Solana runtime: parameter types with Borsh
  derives, the token-2022 and system instructions for plan actions, the
  clock, rent, the close of live accounts, and handlers for a membership
  creation and a game-token burn.
- `tests/` runs the library with the real outside crates linked.
