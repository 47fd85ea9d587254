# infovulcan

The core of a ticketing cluster, written in Verus: the data structures, rules and wire formats of
its services, each function with a contract that is proved.

## Layout

- `src/db` – storage with secondary indexes and counters, the replicated operations on it, and the
  requests the database answers. `consistency.rs` and `user_consistency.rs` prove that the indexes
  agree with the rows after every operation, and that a query by index finds what a look at every
  row would.
- `src/custodian` – ticket locks, the Raft log and state machine behind them, snapshots, tickets on
  the wire, and the ticket service.
- `src/raft` – the values of Raft, their encoding, and both ends of the wire.
- `src/admin.rs`, `src/chaos.rs`, `src/honeypot.rs`, `src/discovery.rs`, `src/tls.rs`, `src/pqc.rs` –
  the smaller services and what they share.
- `src/gateway` – settings, errors and the REST vocabulary of the gateway.
- `src/console` – requests, theme and page of the console in the browser; `src/policy.rs` is the
  life of a ticket.
- `src/loopback.rs`, `src/echo.rs` – a cluster inside one process, and a service that answers with
  what it is told.
- `app` – the console program, and the plumbing of the services: the order in which each calls the
  core and the others, environment, files, sockets, and the traits of the crates that carry them.

## What is believed

Calls into other crates stand behind small functions whose contracts are believed, not proved:
`src/store.rs` (sled), `src/record.rs` and `src/custodian/snapshot.rs` (serde_json), `src/ids.rs`
(uuid), `src/time.rs` (chrono), `src/admin.rs` (argon2, uuid), `src/discovery.rs` (toml, serde),
`src/db/storage.rs` and `src/honeypot.rs` (the standard library). Each says in its doc comment what
it claims.
