# upi_switch

Decision logic of a UPI-style payment switch, verified with Verus.

- `src/` is the verified library: request validation (`validator`), the
  idempotency store over a `DashMap` (`idempotency`), deterministic mock
  banks (`bank_client`), the debit/credit/reversal flow of a payment as a
  state machine (`orchestrator`), and the replies for refused, duplicate and
  executed requests (`gateway`).
- `app/` is the HTTP service around it: the axum router, async bank
  clients with their delays, the deadline timer, JSON wire types and the
  shared store lock.
