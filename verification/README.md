# halopsa-mcp

An MCP server for HaloPSA whose decision logic is a Verus-verified library.

- `src/` — the verified library (`halopsa_mcp`):
  - `util`, `text`, `hex`, `urlencoding`, `digest` — input validation, string
    building, encodings and hashing;
  - `crypto` — AES-256-GCM encryption of stored HaloPSA credentials;
  - `chunking`, `pipeline`, `semantic` — ticket chunking for embeddings, the
    step-by-step indexing of a ticket (skip unchanged, chunk, embed, store),
    search excerpts and permission filtering;
  - `oauth`, `session`, `rate`, `onetime` — the OAuth 2.1 relay decisions
    (PKCE, redirect URIs, token refresh), single-use login states and
    authorization codes, SSE session admission, rate limits;
  - `catalog`, `schemas` — the tool list offered by `tools/list`, with each
    tool's input schema, and the proof that it matches the routing;
  - `requests` — the bodies of the HaloPSA write requests (tickets,
    actions, sites);
  - `json`, `tools`, `halopsa`, `types`, `mcp`, `config` — the JSON model of
    HaloPSA replies and tool arguments, credential redaction, ticket
    listings, workflow transitions, tool routing and MCP method handling.
- `tests/` — tests of the library.
- `app/` — the server program: configuration, HTTP routes, SQLite storage,
  HaloPSA and embedding-service calls, and vector scoring.
