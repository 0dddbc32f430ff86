# splendor

A verified agent-runtime kernel: tenancy and quota enforcement, an action
gateway that runs every check before an adapter can act, local message
routing and delegation, messages between instances (a receiving boundary,
an in-memory transport with injected faults, and retries that are only
taken when declared safe), state graph commits and handoffs, ordered trace
emission, policy caching, node registry and fleet telemetry, escalation
observation, scheduling, adapter guards, and the decisions of a local
run-control daemon.

## Layout

- `src/` — the library, written in Verus. Each public function states its
  behaviour in `requires`/`ensures`; laws that relate several operations are
  public proof functions (`lemma_*`, `law_*`). Calls into the standard library and
  into outside crates (`time`, `url`) go through small trusted wrappers whose
  doc comments say what is assumed of them.
- `tests/` — ordinary Rust tests of the library on concrete values.
- `app/` — the daemon process: HTTP routing (axum), JSON wire shapes (serde),
  file and network I/O for the adapters, and in-memory stores. It holds no
  decisions of its own: every admission, lifecycle, trace and adapter rule
  it applies is a library call.

## Scope notes

- Trace events are numbered, ordered and tied to their run, but they are not
  hash-chained: no event carries an integrity digest of its predecessor, and
  the tick-completed event carries no integrity summary.
