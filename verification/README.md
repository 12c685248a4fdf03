# rxserver protocol layer

The protocol layer of an X11 display server, written in Verus.

- `src/protocol/` is the verified library: byte-order encoding and decoding,
  request parsing and validation, reply/event/error serialization, the
  connection setup handshake and its authorization, the extension opcode
  table, RANDR state and replies, the per-opcode request handlers, the
  handler registry, and the decisions of the virtual display window.
  Calls into the `bytes` crate and into `std` formatting stand behind small
  trusted wrappers whose contracts say what those calls do.
- `app/` is the I/O around it: reading and writing client streams with
  `tokio`, loading `.Xauthority` files, the per-client request loop, the
  display channels, and serde / `thiserror` copies of library types.
- `tests/` exercises the library on concrete inputs.
