# sky_mirror

A pure-data compositor backend boundary for a nested Wayland session, written
in Verus. Backend adapters turn what a compositor backend observes (client
connections, surfaces, toplevels, output sizes, requests) into plain events;
a core model applies them to client, surface and window registries; session
bridges, surface admission previews and a bounded runtime loop sit in between.
Verus proves every function in `src/` against its contract (the constructors
of the stateless planners and runners have none to state). Taken on trust:
one wrapper around std's `Path::display`, the declaration of `PathBuf`, and
its `clone`.

## Layout

- `src/core_model/` — the core state and its commands (`state`, `types`), one
  event through the core (`runtime`), the driver runner (`backend_driver`),
  the session bridge from nested client sessions to core clients
  (`runtime_bridge`), and the lifecycle laws (`laws`).
- `src/smithay_backend/` — event adapters and ID allocators, the runtime probe
  and its FIFO driver, scenario replay, the read-only runtime facade, the
  surface lifecycle / trace / intent / admission pipeline and its contract
  snapshots, the accept and disconnect flows as pure data, the production
  protocol bootstrap decision, and the bounded
  runtime loop and start/run/stop orchestrator as state machines.
- `src/text.rs` — decimal rendering used by the reports.
- `tests/` — executable tests against the compiled library.
- `app/` — the I/O shell: Wayland display and listening socket, the calloop
  event loop, stop/wakeup flags, the clock and the environment. It performs
  what the library's state machines ask for and hands the results back.
