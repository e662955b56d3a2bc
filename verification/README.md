# acosmi

A client library for the Acosmi model gateway, verified with Verus.

- `src/auth`: tokens, and what an authorization server answers.
- `src/client`: base URLs, the client and its tokens, observers, HTTP exchanges and what ends them
  (`exchange.rs`), and sessions with an authority that has the last word on tokens (`session.rs`,
  with its laws in `session_laws.rs`).
- `src/models`: requests and answers. `wire_openai.rs` reads the OpenAI dialect out of documents and
  `wire_text.rs` a response straight from its text, with their laws in `wire_laws.rs`.
  `adapters/openai` builds requests, reads answers and turns streams into events.
- `src/shared`: JSON documents (`json.rs`), reading values out of them (`decode.rs`) or straight from
  their text (`raw.rs`), errors, text, advice on retries.

A stream is described in `adapters/openai/machine.rs`: what every frame does to the state of the
stream, and which events come of it. The converter in `stream.rs` is proved to do that. The laws are
proved of it: `laws.rs` (a message starts and ends once, with the first finish reason and the last
usage, and any use of a converter is such a run), `block_laws.rs` (blocks start, grow and stop in
turn), `input_laws.rs` (the arguments of tool calls add up), `call_laws.rs` (pieces of tool calls find
their block) and `content_laws.rs` (text and thinking are passed on).

What the library takes from `serde_json`, `url`, `http` and `std` without proof stands in functions
marked `external_body`, each with a contract and a comment that says what is claimed.

`app/` holds what talks to the world: connections, stores, clocks and callbacks. `tests/` runs the
library.
