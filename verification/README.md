# orbitx_storage

The storage and terminal-context core of the OrbitX terminal, verified with
Verus.

- `src/` is the verified library. `storage/` holds the storage layers: the
  paths, the session-state file format (`messagepack`), the key vault and the
  encryption of secrets, the in-memory cache, the recovery plans, the SQL
  builders (`query`) and, under `repositories/`, the records of each table
  with the statements that read and write them and the decisions taken on
  what comes back. `terminal/` holds the terminal contexts, the registry of
  the active pane, the context cache and the replay of output channels.
  `utils/` holds the error and API-response helpers and the language
  settings. Every public function states its result in its contract, but
  for the clock readings, whose results depend on the time; the laws of the
  library are public proof functions (named `law_*`).
- `app/` is the ordinary Rust around it: SQLite access through `sqlx`, files,
  processes, clocks, channels, serde and logging. It hands plain values to the
  library and acts on what the library returns.
- `tests/` runs the library on concrete values.
