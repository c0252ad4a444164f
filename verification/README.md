# jsonrpc_gpio

A strictly synchronous, single-in-flight JSON-RPC 2.0 GPIO control server
for the ESP32-S3, with its core verified by Verus.

One request line in, at most one response line out, over a newline-delimited
byte stream.

## Layout

- `src/` — the verified library.
  - `server.rs`: NDJSON framing with a bounded buffer and overflow discipline,
    specified as a byte-level state machine and, directly, as the complete
    segments of the stream; laws: framing yields exactly those lines, chunking
    is invisible, emitted lines are bounded.
  - `dispatch.rs`: what a line is answered with (parse error, notification,
    invalid request, unknown method, call), the backend traits, the mock GPIO
    and LED backends with exact models and their laws, and the device backend's
    decisions.
  - `rpc.rs`: ids, error objects, replies, and the trusted calls into
    `jsonrpc-lite`/`serde_json` that parse and print messages.
  - `rgb.rs`: WS2812 GRB bit encoding; `transport.rs`: USB timeout decisions;
    `protocol.rs`: the typed request model.
- `app/` — the program: stdin/stdout serving loop, serde-derived wire types
  that type a call's params, and the device build (esp-idf calls).
- `tests/` — framing, dispatch, encoding and transport tests.

## Error codes

`-32700` parse error (id `null`), `-32600` invalid request, `-32601` method
not found, `-32602` invalid params (including a pin out of range), `-32000`
server/GPIO error. Notifications get no response.
