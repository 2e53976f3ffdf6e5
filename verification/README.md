# meff

MEFF ("music entertainment for friends") is a peer-to-peer key-value store for music
files. Every peer stores files under their names, keeps a second copy of each new file at
another peer, and knows every other peer of the network by name.

## Layout

- `src/` is the library, verified with Verus. It holds the state of one peer
  (`peer.rs`, `database.rs`, `text_map.rs`, `request_table.rs`), the messages between
  peers (`notification.rs`), and, for every message that comes in, the change to the
  peer and the list of things to do next (`request.rs`, `network.rs`, `handshake.rs`,
  `music_exchange.rs`, `action.rs`). `audio.rs` keeps the state of the music player,
  `shell.rs` reads the commands of the interactive shell, `interface.rs` builds the
  requests an application makes. `laws.rs` proves properties that span several calls.
- `app/` is the command-line program around it: sockets, threads, the clock, JSON on
  the wire, sound output and the terminal.
- `tests/` exercises the library on concrete values.
