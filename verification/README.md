# rustwright_mcp

The verified core of a browser-automation MCP stdio server and of its agent CLI
session, written in Verus. The library decides what every request gets; the engine,
the async runtime and the file system stay outside it.

## Layout

- `src/` — the verified library.
  - `text.rs` — decimal numerals and their parsing, with the round-trip lemma.
  - `json.rs` — the library's JSON value, its mathematical view, and the parse of JSON
    text into it.
  - `evaluation.rs` — unwrapping of the engine's array and object envelopes.
  - `session.rs` — the CLI session: target selectors, snapshot script and outline,
    the closed/launched state machine, and each command's JSON response.
  - `tools.rs` — the MCP tool table, argument checks, and published input schemas.
  - `actor/` — the browser actor: the bounded FIFO command queue with cancellation
    and shutdown (`queue.rs`, `cancel.rs`), snapshot refs that are never reused
    (`refs.rs`), the local/remote page lifecycle and engine error mapping
    (`page.rs`), error texts (`error.rs`) and the tool timeout (`timeout.rs`).
  - `output.rs` — inline base64 screenshots up to a cap, file fallback beyond it.
  - `transport.rs` — stdio framing, the parse of client frames, and the
    pre-initialize lifecycle gate.
- `tests/` — tests of the library on concrete values.
- `app/` — the MCP server binary around the library: the rmcp handler and transport,
  the engine calls of the actor thread, the CLI session's engine calls, environment
  and file access, and serde decoding of tool arguments.

The `proof fn law_*` items in `src/` state the properties that hold across calls:
refs are never handed out twice, an acted-on ref is spent, a remote browser never
falls back to a local launch, a cancellation after completion does nothing, the
lifecycle gate lets nothing but `initialize` and `ping` through before `initialize`,
a session's status follows its launch and close history, and settings written in
decimal read back as written.
