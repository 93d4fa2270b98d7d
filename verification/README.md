# openai_responses

Client logic for OpenAI's Responses API and Chat Completions API, written in Rust
and proved with Verus.

- `src/` is the library. It decides which API a model wants and when to turn from
  one to the other, builds the bodies and heads of requests, reads answers, and
  turns the bytes of a streamed answer into chunks. Every function states what it
  returns; `client_laws`, `sse_laws`, `stream_laws` and the ends of `input`,
  `request`, `response`, `stream_session` and `tools` state what holds of several
  functions together.
- `app/` is the client on the network: HTTP over `reqwest`, asynchronous streams,
  and the JSON form of what is exchanged.
- `tests/` runs the library.

JSON values, Base64 and addresses come from `serde_json`, `base64` and `reqwest`.
What the library takes for granted about them stands above the functions that
call them, in `src/json.rs`, `src/base64_text.rs` and `src/address.rs`; what it
takes for granted about the standard library, in `src/text.rs` and `src/sse.rs`.
