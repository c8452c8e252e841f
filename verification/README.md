# skull

The rules of a Skull table, written and proved in Verus, and a small websocket server around
them.

- `src/handle.rs` answers one message of one client (`handle_message`).
- `src/rules.rs` says what each message does to the table and what its sender is told, as a
  relation between the table before, the response and the table after.
- `src/rounds.rs` starts games, rounds and turns.
- `src/state.rs`, `src/player.rs`, `src/names.rs` and `src/message.rs` hold the data and its
  mathematical views.
- `src/peers.rs` decides which connected client is sent what.
- `src/laws.rs` proves what holds across messages: tables stay well formed, refused messages
  change nothing, stages come in order, names stay unique, and more.
- `src/random.rs` draws random numbers with the `rand` crate; its two functions are the only
  ones whose contracts are taken on trust.
- `app/` is the server: sockets, JSON, and nothing that decides about the game.
