# mithaq

Escrow commitments between a creator and a counterparty, funded by a down
payment, released on delivery and review (or automatically), paid out by
construction milestones or tuition installments, or settled by dispute
arbitration with forfeiture. Fees depend on the creator's reputation and on
the utilization of a liquidity pool fed by 30% of every escrowed down payment;
reputation also grants loans up to a loan-to-value tier.

- `src/` is the verified library. `state.rs` states every entry point as a
  function from the contract state and the call to the next state and the
  actions to perform (or a refusal); `contract.rs`, `lifecycle.rs`,
  `settlement.rs`, `disputes.rs` and `schedules.rs` implement the entry points
  on executable values and are proved to answer exactly that; `laws.rs` proves
  what holds across calls (the invariant, the lock, what cannot happen twice);
  `rules.rs` holds the arithmetic; `certificate.rs` derives certificate ids
  with the Soroban host's SHA-256.
- `app/` is the Soroban contract around it: storage, authentication, and
  performing the actions (token transfers, fee distribution, certificates,
  events).
- `tests/` exercise the library on concrete values.
