# io-tether

I/O objects which reconnect by themselves when the connection fails, with the logic verified in
Verus.

- `src/` is the library. `tether.rs` holds the state machine, `implementations.rs` what becomes of
  each operation on the I/O object, `connect.rs` the initial connection, `resolver.rs` the traits
  that users implement. `link.rs` is the mathematical model that the contracts speak of, and
  `laws.rs` states what holds over any number of events.
- `app/` polls sockets, files and futures with Tokio, and hands what they yield to the library.
- `tests/` runs the library.

A connection is lost when a read or write moves no data, when a stream ends, or when an operation
fails. The resolver is then asked, through a future of its own, whether to reconnect:

- if it answers yes, the connector seeks a new connection, and the operation is performed again on
  the new I/O object;
- if it answers no, the failure is returned from the operation that met it.

Unless configured otherwise, the data of a failed write is written again, and every failure that is
not retried is returned; `Tether::with_config` changes either.
