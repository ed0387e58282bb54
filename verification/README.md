# Toolbelt

The logic of an MCP server that exposes Wasm components and messaging channels as tools,
verified with Verus.

- `src/` is the library. Every function states what it returns, and the `laws` modules
  state what holds of all of them together: of accepted definitions, of calls from their
  first step to their result, of `_meta` on the way in and out, of the schemas that tools
  report.
- `app/` is the service around it: HTTP, spans over OTLP, the component runtime, and the
  components that present functions and remote tools.
- `tests/` runs the library on values.

What only the component runtime can do, the library asks for. A definition that is being
read may stop with a question, and goes on once it is answered; a call says what outside
work its next step waits for, and takes in what came of it.

Values of `serde_json`, schemas of `jsonschema` and points in time of `chrono` are used
through small functions whose contracts are taken as given; each says what it takes as
given.
