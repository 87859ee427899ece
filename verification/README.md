# up_transport_zenoh

The rules of a uProtocol transport over [Zenoh](https://zenoh.io), written and proved in
Verus.

* `src/` is the library. It maps addresses to key expressions and priorities to priorities,
  frames message attributes, keeps the registry of listeners, decides how messages, queries,
  replies and frames in shared memory are handled, and builds transports from
  configurations. Each function states what it does; what holds of several functions
  together stands beside them as a proof function named `law_...`.
* `app/` is the transport that runs: it owns the session and the listeners, does what the
  rules ask for and hands back what came of it.
* `tests/` runs the library together with `up-rust`, `protobuf` and `zenoh`.

What the library takes from those crates goes through a few functions marked
`external_body`, each of which says what it relies on.
