# power_grid

The decision logic of a small simulated power grid built on Kafka: cities
ask for power, a nuclear plant produces what it was last asked for and
announces it, and transformers relabel the voltage class of the events on
their way to the cities. A balancing tool prints what it is about to do.

- `src/` is the library, verified with Verus: decimal volumes
  (`decimal`), the records and the transformer's relabelling (`domain`),
  the city's requests (`city`), the plant (`plant`), client settings,
  topics and registry settings (`settings`), and the balancing tool's
  commands (`equilibrium`).
- `app/` runs the processes: Kafka consumers and producers, Avro encoding
  through the schema registry, metrics and the command lines.
- `tests/` exercises the library.
