# request-pipeline-sim

A deterministic simulation of a request pipeline, verified with Verus. A
generator offers requests to a bounded shared queue; two services take them
from the front, service A first. A failed service fails what it takes and
sends it back for a bounded number of retries. Queue pressure turns on
backpressure (the generator slows down) and pushes services towards
overload and failure; quiet ticks heal an overloaded service, and only a
restart heals a failed one. Each tick is recorded in a bounded history,
from which a summary and status signals are derived. A read-only JSON
protocol serves snapshots of the simulation.

Layout:

- `src/simulation.rs` — the simulation, its mathematical model (`SimState`,
  `tick_step` and its phases) and the laws proved about a tick.
- `src/scenario.rs` — the built-in scenarios.
- `src/app.rs` — the operator session: focus, restarts, key handling,
  stopping after a number of ticks.
- `src/rpc.rs` — snapshots, their JSON text, and how a request line is
  answered.
- `src/dashboard.rs` — what the terminal dashboard shows.
- `src/cli.rs` — command-line arguments.
- `src/text.rs` — string helpers (decimal numbers, character access).
- `app/` — the terminal program: drawing with ratatui, input with
  crossterm, the TCP snapshot server, and the averages, which are fractions.
