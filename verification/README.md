# gleanmark

A personal bookmark library with hybrid (semantic + keyword) search, written
in Verus. `src/` is the verified core; `app/` holds the programs around it.

- `src/text.rs` — whitespace trimming, joining, replacing, decimal text,
  UTF-8 length, each against an exact specification.
- `src/time.rs` — UTC instants and their RFC 3339 text (via `chrono`).
- `src/models.rs` — bookmarks, queries, configuration and the `cloud.toml`
  overlay.
- `src/payload.rs` — how a bookmark is stored in the vector store and read
  back, with the round-trip law.
- `src/embedding.rs` — the texts handed to the dense and sparse models
  (E5 prefixes, jieba segmentation).
- `src/search.rs` — the collection's vectors and the hybrid search request.
- `src/backend.rs`, `src/http.rs` — the cloud gateway's URLs and what its
  answers mean.
- `src/session.rs` — the sign-in session: status, token freshness, token
  answers.
- `src/pager.rs` — collecting every page of bookmarks for export and
  re-indexing.
- `src/qdrant.rs` — finding and waiting for the local Qdrant process.
- `src/facade.rs`, `src/api.rs`, `src/waitlist.rs`, `src/mcp.rs`,
  `src/cli.rs`, `src/desktop.rs` — the decisions of the facade, the HTTP
  API, the waitlist, the MCP tools, the command line and the desktop shell.

`app/` performs the I/O: the Qdrant client, the embedding models, the HTTP
clients and servers, files and processes. The hosted cloud's connection
details (gateway URL, auth server URL and key) are read from the variables
`GLEANMARK_GATEWAY_URL`, `GLEANMARK_SUPABASE_URL` and
`GLEANMARK_SUPABASE_ANON_KEY`; cloud mode uses them for whatever
`cloud.toml` leaves out. Cloud mode needs them: without them, and without
the same settings in `cloud.toml`, it stops with the error naming the first
missing setting.

Not part of this build: the desktop shell (tray, global shortcut, updater
window; its dialog and progress texts are in `src/desktop.rs`) and the web
UI's static assets, which the server answers with 404.
