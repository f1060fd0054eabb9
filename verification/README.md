# hiroz action-server bookkeeping

A verified library for the server side of ROS 2 actions, and a bounded
drop-oldest queue for ROS depth QoS.

- `src/` is verified with Verus. `server.rs` holds the goal tables of an action
  server and every protocol step on them (acceptance, execution, finishing,
  cancel requests, result requests, expiry), each specified over the
  mathematical model `ServerModel`. `handle.rs` puts the type-state goal
  handles on top; `queue.rs` is the drop-oldest queue; `id_map.rs` the
  insertion-ordered map the tables use; `laws.rs` the properties that span
  several steps.
- `app/` shares the library between threads and tasks: locks and condition
  variables, clocks, the tokio tasks that answer requests and run goal
  handlers.
- `tests/` exercises the library on concrete values.

Times are monotonic nanoseconds handed in by the caller; payloads are the
serialized messages.
