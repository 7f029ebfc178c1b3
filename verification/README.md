# contexa

Contexa captures what is on the user's screen, keeps a searchable memory
and timeline of it, and answers requests about it with a chat model. This
crate is its verified core, written in Verus: each function in `src/`,
apart from the trusted wrappers named below, is proved against its
contract.

Layout:

- `src/types.rs`, `src/model.rs` — snapshots, requests, plans, statuses,
  errors, stored rows; `src/text.rs`, `src/hex.rs` — text helpers.
- `src/context/` — turning captures into snapshots: assembly, enrichers
  (Chromium browsers, VS Code), change detection, the recent-snapshot cache,
  the plugin registry and the context engine.
- `src/memory/` — chunking, deduplication, the timeline builder, working
  memory, retention, and the ingestion steps.
- `src/orchestrator/` — the decision engine, the request table, and what the
  pipeline gathers.
- `src/llm/` — chat request bodies per provider and the reading of streamed
  responses.
- `src/mcp/` — MCP tool arguments and results, access tokens and their cache.
- `src/db.rs`, `src/commands.rs` — decoding stored rows; desktop commands.
- `app/` — the unverified shell: SQLite, HTTP providers, the OS credential
  store, asynchronous orchestration and the memory engine's persistence.
- `tests/` — tests of the library.

Calls into outside crates (lru, sha2, whatlang, bcrypt, rand, chrono, uuid)
are made through a few trusted wrappers whose contracts are stated in their
doc comments; everything built on them is proved.
