# deepgram

A client for Deepgram's live text-to-speech and voice-agent WebSocket APIs, whose logic is
verified with Verus.

- `src/` is the verified library: the client's base URL and credentials, the speech options
  and their urlencoded form, the WebSocket URLs and upgrade requests of both endpoints, the
  agent's session settings and message types, and the decisions of the connection workers
  and of the tasks that feed audio or text into a connection, written as state machines from
  event to action. `src/outside.rs` holds what the library assumes of the `url`,
  `serde_urlencoded`, `tungstenite`, `serde_json`, `bytes`, `futures` and `http` crates (of `serde_json`,
  `bytes`, `futures` and `http`, only types that the library carries).
- `app/` performs those decisions: it opens the connections with `tokio-tungstenite`, runs
  the worker tasks, turns messages into and out of JSON with `serde`, and holds the
  reconnection settings (whose backoff is floating point).
- `tests/` runs the library on concrete values.
