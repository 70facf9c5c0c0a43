# bog_core

Core of a market-making engine for crypto venues, written in Verus: every function
under `src/` carries a `requires`/`ensures` contract that Verus proves.

## Layout

- `src/core_types.rs`: signals, fixed-point positions and their fill accounting.
- `src/data.rs`: market snapshots and their validity.
- `src/orderbook/`: ten-level order book, VWAP, imbalance and liquidity, a
  top-of-book book, our resting orders and the book manager.
- `src/risk/`: risk limits, pre-trade checks, the flash-crash circuit breaker and the
  token bucket of the order rate limiter.
- `src/resilience/`: gap detection, stale-data detection, feed health, kill switch and
  the connection circuit breaker.
- `src/engine/`: the engine's tick pipeline, the simulated executor, the executor
  bridge, gap recovery, position reconciliation, alerting and the strategy lifecycle.
- `src/execution/`, `src/order_fsm.rs`: order identifiers, execution modes, orders,
  fills and their lifecycle state machine; the journaling executor with its journal
  replay, the queue-aware simulated executor and the Lighter stub executor.
- `src/keyed.rs`: sequences keyed by text, the model of the executors' order maps.
- `src/monitoring/`: alerts, alert rules and duration formatting.
- `src/perf/`: cache-line padded counters.
- `src/clock.rs`: the clock and `Duration` calls, with what is assumed of them.

Functions that read the clock come in pairs: one that reads it and one (`*_at`) that
takes the time as an argument and has an exact contract.

`app/` holds what runs around the library: the engine and gap-recovery loops, alert
delivery, signal handling, CPU placement, Prometheus export, the journal files, the
shared rate limiter around the token bucket, and the floating-point backoff and fill
simulator.

## Checking

Each public law of the library is a `pub proof fn` next to the functions it speaks of;
the tests under `tests/` run the library on concrete values.
