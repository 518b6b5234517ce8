# onyx_server

A self-hosted group messenger server (ONYX). The library under `src/` holds
the server's logic, written in Verus and proved against its contracts:

- `config.rs`: the configuration model, its defaults, the default
  configuration file, the setting updates, the directory plan and the CORS
  policy.
- `hub.rs`: the connection hub (connections per user, group subscriptions,
  voice channels) with an abstract view `HubView`; `hub_laws.rs` states what
  its operations keep and undo.
- `protocol.rs`, `session.rs`: the WebSocket messages and the session step
  that turns a client message and the hub state into the next state and the
  packets to deliver; `session_laws.rs` states its properties.
- `info.rs`, `group.rs`: the HTTP info and group answers, and the rules for
  channel mode and tokens.
- `cli.rs`, `menu.rs`, `text.rs`, `updater.rs`, `ids.rs`: the rules of the
  admin tools, text parsing and formatting, release checks, identifiers.
- `assoc.rs`, `seqs.rs`: lemmas on association lists and filtered sequences.

`app/` is the program around the library: command line, terminal menus,
SQLite, HTTP and WebSocket serving, and the release check over the network.
It performs the I/O and hands plain values to the library.

`tests/` runs the library on concrete values.
