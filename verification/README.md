# ros2_trace_analyzer

Reconstructs the objects of a traced ROS 2 application (nodes, publishers,
subscribers, services, clients, timers, callbacks and the messages between them)
from LTTng trace events, and computes analyses over them: callback durations,
message latencies, the dependency graph of the application, the dependencies
between callbacks, publications made in callbacks, the latency from message take to
callback execution, executor spin durations, end-to-end chains and thread
utilization.

Layout:

- `src/` is the library, verified with Verus. `processor/` turns raw events into
  processed events and keeps the object store (`model/`); `analysis/` holds the
  analyses, each a state machine over processed events with an exact contract;
  `event_iterator.rs` decides what happens to each message of a trace; `argsv2/` holds
  the command-line arguments as plain values; `bt2/` holds the type logic of the trace
  reader (which class types a field or value is read as, and the errors and their
  messages); `analysis/dot_text.rs` and `analysis/callback_dependency/dot.rs` write the
  dependency graph and the callback graph as DOT text; `analysis/set.rs` hands each
  processed event to every analysis of a run.
- `tests/` runs the library on small traces written by hand.
- `app/` is the command-line program: argument parsing, reading traces, and writing
  the results as JSON, DOT and text.
