# OpenTelemetry exporter for Honeycomb

Sends finished OpenTelemetry spans to [Honeycomb](https://honeycomb.io). The
logic is verified with [Verus](https://github.com/verus-lang/verus).

- `src/` is the verified library. `exporter` makes the events of a span,
  `export` is the course of an export from step to step, `pipeline` sets a
  pipeline up, `client` holds the client until it is shut down, and `processor`
  says what is done with a span when it ends. `event_laws` and `export_laws`
  state what holds of every event and of every export. `outside` holds all that
  is taken from other crates without proof.
- `app/` wires the library to the OpenTelemetry SDK and to the Honeycomb client:
  it converts values, takes locks, sends events and hands the answers back.
- `tests/` runs the library with the real crates.
