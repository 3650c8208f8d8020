# scrs-serve

A small live streaming server: one source sends a stream, many listeners hear it,
and anybody can ask what is playing.

- `src/` is the library. It holds every decision of the server, and Verus proves
  what it states: how a request is read, how each request is answered, who may
  send, how listeners are counted, and what is known of the stream. A connection
  is a `Session`; `handler::process` takes it from one event to the next and says
  what is to be done. What holds of the server as a whole is stated in `laws`.
- `tests/` runs the library together with the crates that it calls.
- `app/` is the program around it: it reads the configuration file, takes
  connections, and reads, writes and waits as the library asks.

The library relies on the crates `bus_queue`, `bytes`, `futures`, `http`, `httparse`,
`mime`, `url` and `ustr`. Each function that calls one of them says in its comment
what it takes for granted.
