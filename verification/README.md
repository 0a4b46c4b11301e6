# minting_luna

A CosmWasm contract that mints a Luna NFT collection, with its logic verified
by Verus.

- `src/` is the verified library. `contract.rs` holds the contract's state
  (`MintingContract`: the configuration and the token whitelist) and its entry
  points `instantiate`, `execute` (`execute_update_config`,
  `execute_add_to_whitelist`, `execute_mint`) and `query`, each specified by an
  outcome over plain values. `state.rs` holds the configuration and the
  whitelist (a map with distinct keys kept as a type invariant), `api.rs` the
  host's answers to address validation, `encode.rs` the one call into
  `cw721`/`cosmwasm-std` (encoding a `TransferNft` message), `decimal.rs` the
  decimal rendering of fees in error messages, and `laws.rs` the properties
  that relate the entry points.
- `app/` binds the library to CosmWasm: storage through `cw-storage-plus`,
  address validation through the host's `Api`, and the serde copies of the
  messages and state.
- `tests/` runs the library against the mock host of `cosmwasm-std`.
