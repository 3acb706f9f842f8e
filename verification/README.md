# interruptible

Stops a future producer or stream from producing values when an interrupt
signal is received.

* `src/` is the library, verified with Verus. It holds the interruption state
  machines: `InterruptibilityState` (strategy, received signal, poll count),
  `InterruptibleStream` (per-poll decisions for a stream),
  `InterruptibleFutureControl` / `InterruptibleFutureResult` /
  `InterruptibleControlFuture` (overriding a completed future's output), and
  `laws.rs`, which proves properties that span several polls.
* `app/` holds the `Future` and `Stream` impls that poll the wrapped futures and
  streams and hand each result to the state machines, the extension traits that
  build them, and the `Ctrl C` handling.
* `tests/` exercises both the state machines and full streams and futures.
