# ngrok

An agent SDK for ngrok whose decisions are verified with Verus.

- `src/` is the core: what an agent decides and computes, with contracts. It performs no I/O.
  Where the outside world must act, the core says what to do and takes the outcome as a value:
  the reconnect loop, for example, takes an event and returns the next action.
- `app/` performs the actions: sockets, TLS, timers, channels, JSON on the wire, the environment.
- `tests/` run the core.

The agents come in three layers. `agent` holds the agent that keeps its own session alive: it
dials, authenticates, binds its tunnels again after a reconnect, and routes connections to
endpoints until they are closed. `agent::agent` is an agent on top of ready-made sessions, with functional options.
`endpoint_builder`, `ffi` and `default_agent` start endpoints of such an agent step by step.

Calls into other crates stand behind small functions whose contracts are trusted; each says in its
comment which function it calls and what it claims of it. They are in `urls`, `json`, `certs`,
`listener` (byte buffers), `options` (copying a TLS configuration) and `text` (UTF-8).
