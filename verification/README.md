# campaign_escrow

A verified core for a campaign escrow and its fee calculator, written in
Verus.

- `src/fee_distribution.rs`: `FeeDistribution::compute_split`, the floored
  basis-point split of an amount into `(fee, net)`, with its laws
  (conservation, rounding toward the payee, monotonicity in the rate).
- `src/escrow/`: the escrow's decisions. `contract.rs` holds `Escrow` (the
  instance state) with one method per entry point; each returns an `Error`
  or the ordered `Effect`s the host must carry out (authorizations, token
  deposits and payouts, storage writes, lifetime extensions, events).
  `laws.rs` proves properties of the escrow as a whole: funds are conserved
  by every operation, a campaign settles at most once, pausing never traps
  funds, settlements write their status before paying, and every privileged
  entry point demands the right signature.
- `app/`: the two Soroban contracts, which read the ledger, call the
  library and perform the effects it returns.
- `tests/`: the contracts' scenarios, run against the library through a
  small in-memory stand-in for the ledger host.
