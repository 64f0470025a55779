# HermesGate

A multi-device SMS gateway: phones forward the SMS they receive, the server stores them,
extracts one-time codes, and serves them over a REST API, a WebSocket stream and the Model
Context Protocol, each token seeing only the phone numbers it is allowed.

## Layout

- `src/` — the verified library (Verus). Per-number authorization (`db::models`,
  `db::access`), the SQL each read runs with its bound parameters (`db::query`,
  `db::statements`), token secrets and records (`db::crypto`, `db::records`,
  `db::tokens`), code extraction (`otp`), request authentication (`auth`), the REST
  endpoints' decisions (`api`), MCP routing and planning (`mcp`), configuration (`config`).
- `app/` — the server binary: axum routing and handlers, SQLite access through `r2d2`,
  the WebSocket and SSE loops, STDIO transport, and serde/clap copies of the records.
- `tests/` — tests of the library, including scenarios run against an in-memory SQLite
  database.
