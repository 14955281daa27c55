# mcp_gateway

A gateway for the Model Context Protocol (MCP): it accepts MCP clients over
WebSocket, keeps track of upstream MCP servers and their health, forwards
requests to them, authenticates callers and exports metrics.

The crate is written in Verus. Its logic is verified against contracts
stated over mathematical models; the program around it is ordinary Rust.

## Layout

- `src/` — the verified library.
  - `json`, `table`, `text`: a JSON value model, keyed lists viewed as maps,
    and string operations.
  - `config`: the configuration, its defaults and its validation rules.
  - `error`: the gateway's errors, their HTTP status codes and JSON bodies.
  - `gateway`: the bodies of the fixed HTTP endpoints.
  - `health`: per-server check history and the healthy/unhealthy transitions.
  - `metrics`: the metric catalogue and the per-server health-check records.
  - `mcp`: messages and errors, the protocol state machine, message
    validation, the client and server connection state, message routing,
    transports, and the JSON form of the MCP parameter and result types.
  - `middleware`: the layer plan, security headers and request
    authentication and authorization.
- `tests/` — tests of the library.
- `app/` — the executable: command line, file and network I/O, the HTTP
  server, sockets and child processes, Prometheus and JWT handling. It
  performs the steps the library decides and hands it the outcomes.

Laws of the library (properties that span several calls or hold of every
state) are public proof functions whose names begin with `law_`.
