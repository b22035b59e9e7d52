# agentrt_rs

The AgentRT Rust SDK, with its core written in Verus and proved against its
contracts.

- `src/` is the verified library: error codes and their HTTP mapping, the
  domain types and their wire names, a JSON model, URL and query building,
  the requests every manager sends and how the runtime's answers are read,
  the client's configuration and retry verdicts, the multi-protocol payloads
  and detection, system-call requests, the run-stream decoder, the plugin
  registry and manager, hooks, and bounded telemetry buffers.
- `app/` is the plumbing around it: the `reqwest` client and its retry
  loop, the asynchronous managers, the protocol client, the HTTP system-call
  binding, locks around shared state, and serde forms of the core's types.
- `tests/` runs the library on concrete values.
