# hyperion

A Minecraft game server and the proxies in front of it, as a verified library and the programs
around it.

- `src/` holds the library. Each function states what it does, and Verus proves it.
  - `proxy_cli`, `bedwars_cli` and `cli`: what the command lines mean.
  - `proxy_loop`: how a proxy keeps its connection to the game server and numbers its players.
  - `proxy_start`, `server_connection` and `proxy_bind`: how proxy and game server find and admit each other.
  - `tls`: the name, the authority and the certificates for connections over TCP.
  - `registration`, `session`, `world` and `frame`: what a proxy's messages make the game server
    do.
  - `process`: why an address cannot be listened on.
  - `profile`, `player_uuid` and `json`: looking players up.
  - `game` and `team`: the Bedwars game.
- `tests/` runs the library.
- `app/` holds the two programs: sockets, files, clocks and the game world. `app/iroh_net.rs`
  needs `iroh` 0.35, which brings several hundred other crates; Cargo.toml does not list it, so
  it is to be added where the Iroh transport is built.

A few functions stand for calls into other crates. Their contracts are not proved; each says in
its comment which call it stands for and what is claimed of it.
