# mermaid-rs-remote-renderer

A kroki / mermaid.ink-compatible HTTP service that renders Mermaid diagrams
to SVG with the `mermaid-rs-renderer` crate.

- `src/` is the verified library (Verus): decoding of `/svg/{encoded}`
  (`decode`), the API-token gate and query-token extraction (`auth`), theme
  selection and the settling of a render (`render`), configuration and the
  layer plan derived from it (`config`), the route replies and log-span
  labels (`reply`), and byte/text helpers (`text`).
- `app/` is the server binary: CLI, axum router, middleware, tracing, the
  upstream render call (which may panic, so it runs on a blocking task),
  the asynchronous render under a deadline, and the serde reading of `pako:` JSON.
- `tests/` exercises the library on concrete values.
