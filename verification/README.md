# Ownspace

Verified core of Ownspace, a private, local-first remote workspace and device-management
application: the owner's first run and every restart after it, the local device registry, the
custody of the transport identity, native path traversal, and what the desktop shows and asks.

The library never touches the outside world. An operation that has to consult files, helper
processes or the database is a *plan*: its executable form is handed the replies received so far
and answers with the next request or with its result. `app/` performs the requests.

- `src/plan.rs`, `src/outside.rs`, `src/startup_plan.rs`: plans, requests and replies
- `src/owner_*.rs`, `src/prw_first_run.rs`: setup intent, owner identity, first run, restart
- `src/transport_identity_*.rs`, `src/custody.rs`, `src/paths.rs`: custody of the transport key
- `src/durable_registry_*.rs`, `src/registry.rs`: records, lifecycle rules and the SQLite store
- `src/native_traversal/`: probe packets, routing tags, candidate paths, reconnection
- `src/desktop/`, `src/local_commands/`: presentation state and local management requests
- `src/host.rs`, `src/reliable_host.rs`, `src/working_host.rs`, `src/capable_host.rs`,
  `src/working_registry.rs`, `src/installation.rs`, `src/working_installation.rs` and
  `src/*_laws.rs`: models of the host and the database, and what holds of them across operations
- `src/helper_arguments.rs`: the argument lists of the helper programs
- `app/`: the `prw-first-run` command, the executors for host and database, the desktop window
