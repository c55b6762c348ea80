# codex-api

A bridge between the Responses format and the Chat Completions format, with
machine-checked contracts.

- `src/convert` turns conversation items, instructions and tool definitions
  into a chat completion request.
- `src/sse` turns the chunks of a streamed chat completion into response
  events, one step at a time.
- `src/json.rs`, `src/text.rs` and `src/sse/response_headers.rs` hold the few
  functions that call `serde_json`, `std` and `http`; their contracts are
  taken on trust.
- `app` drives the state machine on a live HTTP response.
