# mathilde-sdk-rs

The client-contract layer of the public MATHILDE SDK, written in Verus.

`src/` is the verified library. Each request type normalizes into the exact
wire body it sends and refuses, with a stated error, the inputs the service
would not accept; each reply is checked against the request that asked for
it; cursor traversal, reconnect schedules, make-before-break swaps and the
messages subscription registry are state machines with their invariants
proved. Outside crates are reached only through a few trusted wrappers
(`chrono` for time parsing, `url` for URL parsing and scheme changes, the
`http` crate's header value check, reached through `reqwest`), each documented where it is declared.

- `sdk_core`: errors, bearer tokens, transport configuration, UTC time
  inputs, cursor pagination, text helpers and string order.
- `streaming`: exponential reconnect backoff and the make-before-break swap.
- `systems`: the aggregator (bars), primitives and regime (outputs) and intro
  surfaces: request types, reply types, protobuf readings, WebSocket frames,
  pagers and clients.

`app/` holds the I/O around the library: HTTP and WebSocket transports with
`reqwest` and `tokio-tungstenite`, JSON bodies with `serde`, the async reads
and traversals, and file downloads.

`tests/` exercises the library on concrete values.
