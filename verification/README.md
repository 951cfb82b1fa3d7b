# network_benchmark

The verified core of a network benchmark service.

- `src/send_log.rs`: the circular log of sent requests (`BenchmarkSharedState`),
  modelled as the sequence of held records, oldest first, with proofs that a
  stored record is found again and stays found for the next
  `SENT_RECORD_CAPACITY - 1` stores.
- `src/messages.rs`: the protocol messages, the reply to a request and the
  report on a reply.
- `src/service.rs`: the decisions of the service loops (next step for an event,
  number of workers, queue size).
- `src/config.rs`, `src/network.rs`, `src/testcases.rs`: configuration defaults,
  peer roles, and the partial-outage test's split of the validators.
- `app/`: the network loops, serde forms of the core types, the listener and the
  test harness glue, which depend on the node's own crates.
