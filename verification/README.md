# mekai

A command-line LLM agent whose decision logic is verified with Verus.

- `src/` is the verified library: the turn machine of the agent (`soul.rs`, with its laws in
  `turn_model.rs`), the single streamed answer (`stream.rs`), the conversation context and its
  compaction, checkpoints, approvals, background task bookkeeping, subagents, slash commands and the screen state of the shell,
  the JSON-RPC servers' replies, configuration resolution, session state, plugins, skills and
  the text and path helpers they rest on. Calls into outside crates (uuid, serde_json, dirs,
  sanitize-filename) and a few std functions go through small trusted wrappers whose contracts
  are stated next to them.
- `app/` is the program around it: command-line parsing, reading the configuration, the chat
  providers, files, processes, the network, MCP servers and the terminal. It runs the library's
  turn machine, performing each operation it asks for.
- `tests/` exercises the library on concrete values.
