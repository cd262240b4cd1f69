# tokio_sky

Staged data pipelines: a producer layer, one to five processor layers and an
optional batcher layer, with messages routed between layers by round robin,
broadcast or partition (consistent hashing).

- `src/` is the verified library (Verus). It holds every decision the
  pipeline makes: the dispatcher (destinations kept in an `IndexMap`, the
  partition ring in a `hashring::HashRing`), the producer, processor and
  batcher loops and the buffer fill as step functions from state and event
  to next state and action, stage settings and names, and the logic of the
  Kafka and Pulsar stages. Each step function has an exact contract over a
  spec function, and the laws (`law_*` proof functions) state what holds
  over whole runs: no message lost or reordered, fair round robin, closed
  destinations dropped, batch sizes bounded, orderly stop.
- `app/` runs those decisions on Tokio: tasks, channels, timers, the
  stage traits for users (`Producer`, `Processor`, `BatchProcessor`), the
  topology builders `run_topology_N[_with_batcher]` and the Kafka and Pulsar
  clients.
- `tests/` runs the library on concrete scenarios.
