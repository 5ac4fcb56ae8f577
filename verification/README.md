# acp_bridge — the A2A front of an ACP bridge

The A2A (Agent-to-Agent) side of an ACP bridge: the agent's configuration,
its Agent Card, JSON-RPC dispatch and replies, and the `message/send` task
lifecycle.

- `src/` — the verified library.
  - `config.rs`: `A2aConfig`, its defaults and how settings override them.
  - `decimal.rs`: port-number parsing and decimal rendering, with their
    round-trip law.
  - `card.rs`: the Agent Card and the advertised URL.
  - `protocol.rs`: message parts, task states, the request envelope, replies,
    `jsonrpc_error` and method dispatch.
  - `send.rs`: the `message/send` exchange as a state machine
    (`MessageSend::step`) and its laws.
  - `trusted.rs`: the calls into `serde_json` and `uuid`.
- `app/` — the HTTP server (axum), reading the environment, the JSON forms
  of the library's values, and the loop that runs an exchange against a
  session engine.
- `tests/` — tests of the library.
