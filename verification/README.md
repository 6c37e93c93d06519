# fluxora_factory

A treasury factory for payment streams. An admin keeps a policy (a deposit cap,
a minimum duration and an allowlist of recipients), and the factory passes a
request to create a stream on to the stream contract only if the policy allows
it and its sender has authorized it.

- `src/` is the verified library. It holds the factory's ledger entries as plain
  values. Whatever belongs to the host (the ledger itself, the authorization of
  an address, the call of the stream contract) is not done here: a call either
  gives the answer or names the next thing that the host has to do, and is made
  again with the outcome.
  - `types.rs`: addresses, errors, ledger keys and entries, the steps.
  - `policy.rs`: the accepted ranges of the policy.
  - `model.rs`: the factory as mathematics.
  - `factory.rs`: the factory.
  - `laws.rs`: what holds of it as a whole.
- `app/` is the contract around the library: it loads entries, takes the steps
  and stores what has changed.
- `tests/` runs the library.
