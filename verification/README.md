# cw_ibc_proxy

A CosmWasm contract that collects funds, forwards the whole balance of a
denomination over an IBC channel once it reaches a configured minimum, lets an
admin swap the funds through the Osmosis pool manager, and moves admin rights
in two steps (the admin names a candidate, the candidate claims).

- `src/` is the verified core, written in Verus. Each entry point is a
  function from the stored state, the request and the chain's answers
  (balance, address validation) to the state to store and the response.
  `admin.rs` holds the admin hand-over rules and their laws; `contract.rs`
  and `contract/` the entry points and the laws that span them;
  `cosmwasm.rs` and `osmosis.rs` the trusted wrappers around the outside
  crates.
- `app/` is the chain-facing shell: storage, `Api` and querier calls,
  serde message types and the conversion to `cosmwasm_std::Response`.
- `tests/` runs the core against `cosmwasm_std`'s mock chain.
