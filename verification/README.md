# tincd

The decision logic of a mesh VPN daemon, verified with Verus: path MTU
discovery, packet forwarding, and the search for Ed25519 keys.

- `src/` is the library. It does no input or output: each function returns what
  to do next, and takes what came of it. Contracts are stated over spec
  functions beside the code; properties of several functions together stand in
  `pmtu_laws.rs`, `route_laws.rs`, `key_laws.rs` and at the end of `paths.rs`,
  `hosts.rs`, `dns.rs`, `mac.rs` and `pcap.rs`, as `law_*` proof functions.
  One thing is taken on trust: what `String::from_utf8_lossy` says of a path
  (`keys.rs`).
- `tests/` runs the library on concrete values.
- `app/` carries the decisions out: key and host files, logs, and the loop that
  drives a packet from step to step. Sockets, the device, the graph, the
  configuration parser and the cryptography come in through traits.
