# talos-mcp-server

An MCP (Model Context Protocol) server that lets AI assistants manage Talos OS
clusters through `talosctl`, written in Verus.

- `src/` is the verified library: a JSON value model (`json`), the JSON-RPC
  messages (`mcp`), text helpers (`text`), argument reading (`args`), the
  command line of each tool (`handlers`), the tool schemas (`tools`), the
  server's replies and the tool-call state machine (`server`), and properties
  of the whole (`laws`).
- `app/` is the program: it reads requests from stdin, parses and prints JSON
  with serde, runs `talosctl`, and feeds the outcomes back to the library.
- `tests/` runs the library on concrete values.
