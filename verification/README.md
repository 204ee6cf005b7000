# brain_backend

The core of an agent backend: projects with file workspaces, agent runs with
a status state machine, an encrypted credential vault, a layered memory store,
prompt-context assembly, tool calling against an LLM provider, and an
OpenCode-compatible session API.

## Layout

- `src/` is the library, written in Verus and verified; its public functions
  state what they do in their contracts, and calls into outside crates (AES-GCM, Argon2, SHA-256,
  random numbers, UUIDs, hex, base64, date parsing, JSON validation) go
  through small trusted wrappers whose contracts are stated over named results.
  - `run/`: run statuses, the transition rules, stored runs, tool invocations.
  - `vault/`: key derivation, envelope encryption, master-key rotation.
  - `memory/`: content admission, layer scoping, near-duplicate detection,
    content hashes.
  - `context/`: assembling a run's prompt context under a token budget.
  - `agent/`: tool outputs, shell and file tool rules, history pruning, the
    steps of an agent turn.
  - `provider/`: interpreting LLM completions, embedding model setup.
  - `opencode_api.rs`, `ws_agent.rs`: sessions, message grouping, event
    forwarding.
  - `settings/`, `project/`, `workspace/`, `config/`, `db/`, `api/`: provider
    settings, project and workspace paths, configuration, identifiers.
- `app/` is the server around the library: HTTP and WebSocket routes, SQLite
  access, LLM and embedding clients, tool execution and the agent loop driver.
  Run with the argument `chat`, it is a terminal chat with the agent instead.
- `tests/` exercises the library through its public functions.
