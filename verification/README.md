# percolator

An account-local risk engine for perpetual futures, written in Verus. Every
public operation carries a contract, and the properties that span operations
are stated and proved as proof functions.

## Layout

- `src/lib.rs` — the engine's fixed-point scales and caps.
- `src/v13/types.rs` — errors, lanes, configuration, asset state, legs,
  health certificates, accounts, risk scores and the market group.
- `src/v13/arith.rs` — exact ceiling arithmetic (risk notional, loss weights),
  account equity and bit counting.
- `src/v13/account_shape.rs` — provenance and shape validation; the active
  bitmap is the only authority over active legs.
- `src/v13/lifecycle.rs` — market creation, account materialization and the
  stale / B-stale flags with their exact counters.
- `src/v13/legs.rs` — attaching and clearing legs with their side totals.
- `src/v13/refresh.rs` — h-lock lane selection, full refresh into a health
  certificate, the favorable-action gate and liquidation risk scores.
- `src/v13/settlement.rs` — account-local B settlement chunks.
- `src/v13/public_state.rs` — public market invariants and recovery.
- `src/v13/laws.rs` — the cross-call properties.

Each mutating operation's contract equates its result and the market and
account after it with a spec transition function (`attach_post`,
`settle_post`, ...), so laws over several calls are stated over those
functions.
