# loac

The scheduling and lifecycle core of a typed local actor runtime, verified
with Verus.

## Layout

- `src/config.rs` — per-spawn options: dynamic mailbox capacity, handler
  concurrency, and child limits, with their defaults.
- `src/scheduling/` — the reply scheduler: the ready-key queue and its
  collection pass (`queue.rs`), the exclusive lease (`wake.rs`), reply limits
  and lanes (`state.rs`), built-in profiles (`profile.rs`), and the fair actor
  turn over mailbox, replies, and child exits (`runtime.rs`).
- `src/lifecycle.rs` — shutdown modes, exit statuses, and the lifecycle gate
  that orders shutdown requests.
- `src/runtime/` — the decisions of the actor loop and the shutdown paths,
  and the scope capabilities with direct-child registrations.
- `src/containers.rs` — the two outside collections the queue keeps
  (`slotmap::SlotMap`, `crossbeam_queue::SegQueue`), behind trusted wrappers.
- `src/reply.rs` — the sealed reply shapes.
- `app/` — the async side: handler futures and their wakers, streamed reply
  channels, the turn and discard loops, the actor task (initialization and
  the running loop), and the Stop, Drain, Kill, and failure paths that drive
  the verified steps.

Each outside interaction is a step: the library returns the work to do
next, the caller performs it (polls a future, receives a message, awaits)
and reports what it found.
