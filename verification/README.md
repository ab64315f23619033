# mirrord_layer

A layer inside a process that serves the process's sockets and files from a
remote agent. This library makes its decisions; it does no I/O of its own.

- `src/sockets` keeps track of sockets, bound ports, waiting connections and
  data that comes early. `registry` holds the operations, `model` says what each
  of them does, `laws` what holds of all of them. `collections` and `address`
  hold what is assumed of the crates `multi_map`, `queues` and `os_socketaddr`.
- `src/file` turns file calls into requests to the agent. `layer` knows the
  remote files, `io` the calls on open ones, `open`, `stat` and `local_file` the
  calls that take several steps, `laws` what holds of them.
- `src/path.rs` and `src/path_laws.rs` resolve paths.
- `app` makes the streams, talks to the system and hooks the calls.

The numbers of `AT_FDCWD` and of address families, and the layout of socket
addresses, are those of Linux on little-endian machines.
