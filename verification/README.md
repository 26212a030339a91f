# swissknife-ai-sdk

A toolkit for AI agents: a tool registry, clients of language-model and media
services, an MCP (Model Context Protocol) server with HTTP and stdio front
ends, an agent memory model, and a reader of an assistant's local history.

## Layout

- `src/` is the library, verified with Verus. It holds the data structures
  and the decisions: the tool registry and its keyed table, the JSON model,
  the requests and responses of each service and the conversions between
  them, the meaning of streamed events, the MCP session's decisions (which
  requests it serves, which provider a call is routed to) and its HTTP
  answers, the built-in tools, the history parser, and the action types and
  checks of the agent memory (its database store is not part of the crate). Each public function states what it returns in its contract, and the
  laws that relate several functions are proof functions (`law_*`).
- `tests/` runs the library on concrete values.
- `app/` is the program around it: command-line parsing, the HTTP server,
  the stdio and in-process MCP transports, HTTP calls to the services, and
  file reading. It sends what the library prepares and hands back what it
  reads, and it holds the types that carry floating-point numbers.
