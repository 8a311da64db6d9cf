# ollama_provider

A provider for chat inference over an Ollama server, with its decisions verified
by Verus.

- `src/` is the library. It turns a conversation into a prompt, a request into a
  body, a base URL into an endpoint and a configuration into credentials, and it
  decides what each reply, each stream event and each failure comes to. It does
  no input or output.
- `app/` sends what the library prepares and hands the outcomes back to it.
- `tests/` runs the library.

What the library takes from the `url` and `serde_json` crates stands in
`src/outside.rs`; everything else in `src/` is proved.
