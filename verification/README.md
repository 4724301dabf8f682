# harpe

The verified core of Harpe, a backend for an LLM-assisted roleplay game,
and of its terminal clients. The library is written in Verus: each function
states in its contract what it returns, and Verus proves it.

## Layout

- `src/args.rs` — the command lines of `harpe` and `harpe-tui`: the grammar
  as spec functions, and a reader proved to follow it.
- `src/client.rs`, `src/commands.rs`, `src/output.rs` — the client's saved
  choices, what a run does before it connects, the request each subcommand
  makes, the interactive mode's commands, and the lines and names it prints.
- `src/tui.rs` — the cockpit's state: tabs, finder, key bindings, the
  transcript of a streamed reply.
- `src/api.rs`, `src/pb.rs` — the server's answers: status codes, paging,
  ownership checks, health, metrics, the steps of a turn, streamed replies
  and backups.
- `src/store.rs`, `src/schema.rs`, `src/domain.rs` — storage rules, the ranking of
  memory search hits, schema migrations, the background job life cycle and the domain records.
- `src/config.rs` — the server's settings read from its variables.
- `src/text.rs`, `src/time.rs`, `src/ids.rs` — text helpers, timestamps and
  identifiers.
- `app/` — the `harpe` program around the library: its arguments and
  environment, the configuration file and the `config` commands. The
  `harpe.v1` service stubs are generated from a protocol definition this
  build does not carry, so every call that needs the server stops with the
  request it would have sent. There is no server program and no cockpit
  program; `app/keys.rs`, `app/scoring.rs` and `app/server_env.rs` hold the
  conversions those programs would use.
- `tests/` — tests of the library on concrete values.
