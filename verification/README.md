# radiant

An in-memory key-value store. Clients talk to the server over TCP in
frames: a four-byte big-endian length followed by that many bytes of UTF-8
text (at most 4096), the text being a JSON request or response.

- `src/` is the verified library: frame encoding and decoding (`frame`,
  `cursor`), the read buffers of the asynchronous and the blocking server
  (`connection`, `connection_handler`), the table (`db`), the requests and
  how they are answered (`protocol`, `connection`), the RPC service and the
  client's reading of its answers (`messages`, `service`, `client`), and the
  contracts of the `bytes` calls it makes (`buf`).
- `app/` is the server program: sockets, tasks, JSON and bincode encoding.
- `tests/` runs the library on concrete values.
