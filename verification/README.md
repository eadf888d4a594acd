# fcore

Control-plane logic of a cluster of proxy nodes (Xray, Shadowsocks, Hysteria2,
WireGuard): the API service that keeps subscriptions and connections, and the
agent that applies them on each node. The logic is a Verus library whose
functions carry `requires`/`ensures` contracts proved by Verus.

Layout:

- `src/` — the verified library.
  - `appconfig`, `service_config`, `param`: settings, their defaults and checks.
  - `tag`, `net`, `connection`, `node`, `subscription`: the data model.
  - `store`: the in-memory table of connections and its selections.
  - `planner`: how a requested connection is placed (node, WireGuard address).
  - `links`, `keys`, `sync`, `debug`: what the service answers.
  - `agent`, `provision`: what a node does with each message.
  - `node_rows`: nodes rebuilt from the joined database rows.
  - `clickhouse_store`: the metrics store client and its queries.
  - `codec`: calls into `uuid`, `base64`, `url` and `rand`, with their contracts.
  - `xray_proto`: messages of the Xray core's interface.
- `tests/` — tests of the library on concrete values.
- `app/` — the command line: reading settings files, and the floating-point
  node score.
