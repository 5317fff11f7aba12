# relayport_rs

Relays for TCP and UDP ports, split in two:

- `src/` is the verified library. It holds the relays' decisions: the options
  and addresses of the sockets they create (`socket_plan`, `connect_plan`,
  `peer_connect_plan`, the UDP link plans), the one-way relay state machines
  (`StreamCopy` for TCP streams, `DatagramForward` for UDP datagrams, with
  idle expiry), the loops that accept connections or serve datagrams
  (`listener_step`; `on_datagram` and `serve_step`), the table of UDP links
  per client address (`relay::connections`), and the errors (`error`). Their
  contracts are proved with Verus.
- `app/` runs the relays on tokio: it parses address strings (std's socket
  address parser), owns the sockets, tasks and channels, performs each step
  the library decides, and hands every outcome back. The socket operations of
  the builders are the traits `TcpRelayBuilder` and `UdpRelayBuilder`, since
  methods cannot be added to the library's types from another crate.

Tests of the library are under `tests/`.
