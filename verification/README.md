# hangul_mcp

An MCP server for editing HWPX documents in memory, with its bookkeeping and request logic
verified by Verus.

- `src/` — the verified library:
  - `store` — the open documents by handle (`doc-<n>`), in a `HashMap` keyed by session
    number: opening, closing, listing, reading, editing (which marks unsaved changes, also
    when a cell edit fails after its deletion) and saving (which clears them);
  - `doc_id`, `decimal` — handle text and decimal rendering, with parsing proved exact;
  - `params` — the tool parameters and their documented defaults;
  - `model`, `report` — a plain snapshot of a document and the reports read from it
    (structure with previews, text of a paragraph range, table cells, form objects);
  - `forms` — the JSON request that sets a form object's value (written by `serde_json`),
    and the check of the engine's answer;
  - `error`, `text` — error messages, previews, line joining, substring search;
  - `laws` — properties that span several operations.
- `app/` — the server around it: the MCP tool router, the document engine calls, file I/O
  and JSON output.
- `tests/` — tests of the library on concrete values.
