# entitlement-stream

A verified library that turns entitlements into a stream of events.

Each entitlement is reported as it arrives. Its claims name two boundaries, one
from which to warn and one at which to halt. A boundary that has passed shows in
the event for the entitlement itself; one that lies ahead is kept as a check,
which is reported when it is reached. New claims replace all earlier checks.

- `src/clock.rs` places wall-clock times on the monotonic clock.
- `src/checks.rs` decides what an entitlement's boundaries amount to, and keeps
  the checks that are pending.
- `src/expander.rs` merges due checks with what the upstream delivers, one turn at
  a time.
- `src/runs.rs` states what holds of the stream from its beginning on.
- `src/uplink.rs` holds the entitlement query's variables, and what an answer to
  it amounts to.
- `src/timer.rs` states what is relied on of the clocks of `std` and of the delay
  queue of `tokio_util`.
- `app/` wraps the library as a `futures` stream, and holds the query and its data
  as they go over the wire.

The queue of checks sets Tokio timers: checks are scheduled and polled inside a
Tokio runtime that has timers enabled. An expander must not outlive that runtime:
shutting it down sets pending timers off early.
