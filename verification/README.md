# pi-brain

A local knowledge base for AI coding agents: documents stored in SQLite with
full-text search, content deduplication and soft deletes, served over a REST
API.

The library (`src/`) holds the logic, each function with a contract proved by
Verus:

- `hash` — the content hash (hex SHA-256) documents are deduplicated by.
- `documents` — the row a document is stored as and reading rows back as
  documents, creating a document (or returning the live duplicate), merging
  partial updates, parsing ids.
- `sql` — the statements over the `documents` table and the search query
  (full-text match, tag filters, order and page) built with sqlx's
  `QueryBuilder`.
- `search`, `excerpt` — page parameters, search responses and the excerpt
  shown around the first match.
- `stats` — the statistics assembled from the database's counts.
- `client`, `ui` — the web interface's decisions: endpoints, response
  status, modal and form state, loading states and the texts shown.
- `laws` — properties across operations: deduplication, hash consistency,
  documents that stay readable through creates and updates, how partial
  updates compose, soft deletes, the search query's filters, the excerpt
  window, the tag form round trip.
- `text`, `ids`, `clock`, `json` — text helpers, and the std, `uuid`,
  `getrandom`, `chrono` and `serde_json` calls behind wrappers whose contracts
  state what those crates document.

`app/` is the server: configuration, the SQLite pool, the actix-web routes
and the JSON forms of the library's types.
