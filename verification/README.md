# sdb_controller

The logic of a Kubernetes operator for SurrealDB, verified with Verus.

The operator looks after three resources: clusters of SurrealDB servers, the
databases on them, and the users of those databases. A pass over a resource is a
conversation with the API server. The library decides, call by call: a pass
starts with `reconcile`, which names the first call and the step at which its
answer is awaited, and goes on with `resume`, which takes the answer. The
contracts say exactly which call follows which answer; the laws say what holds
of every conversation.

- `src/cluster`, `src/database`, `src/user`: the resources (`crd`), the objects
  that are built for them (`resources`), the passes (`reconcile`, `cleanup`),
  what holds of every pass (`laws`), and stand-ins for the API server with the
  scenarios that they play (`fixtures`, `scenarios`).
- `src/api.rs`: calls, answers, and how a pass goes on.
- `src/objects.rs`, `src/error.rs`, `src/text.rs`: Kubernetes objects, errors and
  texts as plain values.
- `src/sql.rs`, `src/credentials.rs`, `src/password.rs`: statements for a server
  and the requests that carry them, root credentials, passwords.
- `src/service.rs`: requests to services through the proxy of the API server.
- `src/schema.rs`, `src/tidb.rs`: the parts of the resource definition that are
  about TiDB.
- `src/mock.rs`: what the stand-ins have in common.
- `src/outside.rs`: the calls into other crates, with what is taken on trust.
- `app`: the program around the library. It makes the calls.
