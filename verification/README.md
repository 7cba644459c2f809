# localsend_rs

A LocalSend peer whose decisions are proved with Verus: who may send, what is
accepted, when a session ends, what a browser may download, what the answers of
another peer mean, and how the terminal interface reacts.

- `src/` is the verified library.
  - `server/`: PINs, upload sessions, browser shares, the server and its builder.
  - `client/`: requests to other peers and the meaning of their answers.
  - `cli/`: the `receive` command.
  - `tui/`: the terminal interface as a state machine.
  - `id_map`, `session`, `protocol`, `text`, `error`: the data they share.
  - `outside`: what is believed of other crates and of std, one contract each.
  - The modules called `laws`, `web_laws` and `server_laws` state what holds
    across functions.
- `app/` binds the library to sockets, files and the terminal. What differs from
  system to system (certificates, hashes, the search for devices) is behind the
  traits of `app/platform.rs`.
- `tests/` runs the library with the real crates behind it.

The library touches no file and no socket. The times that it decides by, the
decisions of the user and the answers of the network are handed in, and what is to
be done outside is handed back. What it fetches itself are random identifiers and
the local time that stands beside a received file.
