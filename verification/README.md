# bigbytesdb

Verified core logic of the Bigbytesdb query and meta services, written in
Verus. The functions in `src/` carry contracts that Verus proves, except a
few small wrappers around std and outside crates (string conversion and
sorting, lower-casing, `Debug` text, time-zone lookup), whose contracts
are trusted; the public proof functions state the laws the library keeps.

- `src/kvapi.rs`, `src/principal/`: tenant-scoped meta-service keys, their
  escaping and reading back.
- `src/meta_errors.rs`, `src/error.rs`: errors of the meta service and of
  SQL users.
- `src/raft_store/`: snapshot stores and the decisions of the raft store.
- `src/show_grants.rs`, `src/account_grants.rs`, `src/ai_to_sql.rs`,
  `src/schema.rs`: table functions.
- `src/set_statement.rs`, `src/script.rs`, `src/interpreters.rs`: decisions
  of SQL interpreters.
- `src/system_database.rs`, `src/tsv.rs`, `src/null_if.rs`,
  `src/aggregate.rs`, `src/transforms.rs`, `src/attach_table.rs`,
  `src/enterprise.rs`, `src/hilbert_lut.rs`: storage, formats and pipeline
  decisions.
- `app/`: file output, clocks, the snapshot directory and the session
  driver of `SET`.
