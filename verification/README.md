# creditra_credit

Verified core of a credit-line protocol, written in Verus.

- `src/math_utils.rs` — fixed-point helpers (`mul_div`, `scale_up`,
  `scale_down`, `apply_bps`, `prorate_interest`) with exact contracts over
  mathematical integers.
- `src/accrual.rs` — lazy simple-interest accrual, including the grace-period
  waiver for suspended lines.
- `src/risk.rs` — the score-driven rate formula and the admin risk update
  (rate-change guardrails, the `Restricted` cure rule).
- `src/lifecycle.rs` — the credit-line state machine: open, suspend, close,
  default, forgive, liquidation settlement, reinstate.
- `src/freeze.rs` — the global draw-freeze switch.
- `src/laws.rs` — properties that relate several operations.
- `app/` — a Soroban contract that reads and writes ledger storage, checks
  authorization, publishes events, and calls the library for the decisions.
  Before a risk update it also stops on a stored rate formula whose bounds do
  not form an interval, which the library's update does not accept.

Every lifecycle and risk operation is a function from the stored line and the
ledger context (time, pause flag, grace policy) to the line to store and the
event to publish, or to the error that refuses the operation.
