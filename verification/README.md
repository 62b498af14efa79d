# tauri_plugin_sql

Bookkeeping of a SQLite plugin, verified with Verus.

- `src/url.rs`: parsing of database URLs (`sqlite:<path>`, `sqlite::memory:`).
- `src/connections.rs`: the databases loaded under their aliases (load, lookup, close).
- `src/transactions.rs`: the open transactions under their UUIDs (begin, lookup, end),
  and the choice of the connection a statement runs on.
- `src/txid.rs`: transaction identifiers, through the `uuid` crate.
- `src/model.rs`: the mathematical model that the contracts speak of.
- `src/laws.rs`: properties that relate several operations, proved over the model.
- `app/`: the commands themselves, which open databases and run statements with `rusqlite`.
