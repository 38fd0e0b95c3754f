# ztunnel

The core of a node proxy for a service mesh, written in Verus.

- `src/proxy/pool.rs` shares connections between requests; `pool_laws.rs` states what holds of
  it across calls.
- `src/proxy/inbound_passthrough.rs` takes a plaintext connection from its arrival to its end.
- `src/proxy/out_ip.rs` sends whole IP packets to the node where their destination runs.
- `src/proxy/metrics.rs`, `labels.rs`, `label_value.rs` and `counters.rs` count connections and
  write the access log.
- `src/proxy/util.rs` times futures and watches writes.
- `src/test_helpers/` is what tests of a running proxy are made of.
- `src/command.rs`, `config.rs`, `identity.rs`, `workload.rs`, `net.rs`, `text.rs` and
  `assoc.rs` hold what the others share.

The program in `app/` does the input and output: it listens, connects, reads the
configuration, and writes the log. Each decision on the way is a call of the library.

Counters, the headers of IP packets, pages of metrics and the names of HTTP statuses come from
other crates. What the library relies on there is written down where it calls them, in
`src/proxy/counters.rs`, `src/proxy/label_value.rs`, `src/proxy/packet.rs`, `src/test_helpers/scrape.rs` and
`src/test_helpers/status.rs`.
