# cosmin

A JSON-RPC ingress for a Tendermint / Cosmos node. Clients talk to it as
they would to the node: page requests (a GET, or an empty body) get the
node's page, JSON-RPC requests for `status` and `broadcast_tx_commit` are
relayed to the node byte for byte, and every other request is refused with
a JSON-RPC error.

- `src/` is the verified library: configuration defaults (`config`),
  JSON-RPC objects and the replies the ingress makes up (`jsonrpc`), the
  node URL validation (`node`), decimal text for header values (`decimal`),
  the routing of requests and the headers they are sent with (`relay`), and
  the decoding of broadcast transactions (`tx`).
- `app/` is the server: the Abscissa application and its `start` command,
  the axum routes, and the HTTP calls to the node.
- `tests/` runs the library on concrete requests.
