# tower_abci

An interface for ABCI (the interface between Tendermint and an application)
built on Tower services, with its logic verified by Verus.

`src/` is the verified library:

- `buf`, `varint`: the `bytes` buffer and prost's varint reader and writer as
  the framing sees them, and the varint format with its round-trip laws.
- `codec`: length-delimited framing of messages: a decoder that resumes where
  it stopped, an encoder, the law that written frames are read back, and the
  law that cutting a stream into chunks never changes what is decoded.
- `request`, `response`: ABCI requests and responses of any kind and of each of
  the four categories (consensus, mempool, info, snapshot), with the
  conversions between them and their laws.
- `server`, `v037::server`: the server and its builder.
- `v037::connection`: the decisions of a server connection; responses go back
  in the order of their requests, and a flush is answered only after them.
- `split`, `v037::split`: the size of the component request queues.
- `buffer4::worker`: the decisions of the worker that serves four request
  queues in priority order, stops once every queue is closed, and records a
  failure of the service in the handle that reports why it stopped.

`app/` is the runtime around it: the `tokio_util` codec traits, and the
listeners and connection loop of the ABCI 0.37 server.
