# elysium

A verified library holding the logic of the Elysium chain's runtime.

- `src/validator_set.rs`: the validator-set pallet (root-only addition and
  removal, offline validators removed at session change), with its laws.
- `src/elysium.rs`: the Elysium pallet (signers, foundation wallet, genesis
  balances), with its laws; `src/store.rs` is the account-keyed map it uses.
- `src/origin.rs`, `src/account.rs`: call origins, dispatch errors and
  account identifiers.
- `src/currency.rs`, `src/fees.rs`, `src/weights.rs`, `src/arithmetic.rs`:
  token units, deposits, fee and gas parameters, with `sp_arithmetic` and
  `sp_weights` called behind small trusted wrappers.
- `src/evm.rs`: block authors as EVM addresses, gas-limit and transaction
  length estimation for RPC calls, and self-contained call routing.
- `src/version.rs`: the runtime version.
- `app/lib.rs`: the outside-trait impls and type conversions around it.
