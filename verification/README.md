# rhino

An etcd v3 API server over a pluggable key-value backend with revisions.

- `src/` is the verified library: the etcd messages it reads and writes
  (`message`), the backend's data and the calls made on it (`backend`), the
  KV service as a state machine from request and backend replies to the next
  backend call or the answer (`kv`), the watch session and watch answers
  (`watch`), the lease, maintenance and cluster answers, and the server and
  bridge that share one backend (`server`).
- `app/` holds the asynchronous side: the `Backend` trait, the loops that
  run the library's state machines against a backend, and the conversion of
  errors to gRPC statuses.
- `tests/` exercises the library on concrete requests and replies.
