# hermes-rust-backend (verified core)

The Hermes backend proxies chat completions to a LocalAI server behind an
OpenAI-compatible API, forwards image work to a Hailo-8 NPU through an MCP
bridge, discovers CUDA GPUs, and publishes an MCP tool catalog.

- `src/` is the library, with its proofs: the JSON documents the
  service reads and answers, the engines' decisions, the parsing of
  `nvidia-smi` output and of the bridge's answers, and the write-once
  settings and probe results.
- `app/` is the server around it (axum, reqwest, tokio): it performs the
  HTTP exchanges, runs `nvidia-smi`, looks at the file system, reads the
  clock, and converts between wire JSON and the library's `Json`.
- `tests/` exercises the library on concrete values.
